use actions_runner::allocation::NetworkAllocation;
use actions_runner::allocator::{AllocatorError, NetworkAllocator};
use actions_runner::command::to_string;
use actions_runner::forwarding::Forwarding;
use actions_runner::network::Ipv4Address;

#[test]
fn allocation_for_slot_seven() {
    let allocation = NetworkAllocation::new("eth0", 7);
    assert_eq!(allocation.interface, "eth0");
    assert_eq!(allocation.host_ip, Ipv4Address::new(172, 16, 7, 1));
    assert_eq!(allocation.client_ip, Ipv4Address::new(172, 16, 7, 2));
    assert_eq!(allocation.guest_mac, "06:00:ac:10:07:02");
    assert_eq!(allocation.tap_name, "tap7");
}

#[test]
fn allocation_setup_commands() {
    let allocation = NetworkAllocation::new("eth0", 7);
    let cmds = allocation.setup();
    let rendered: Vec<String> = cmds.iter().map(to_string).collect();
    assert_eq!(rendered, vec![
        "ip link del tap7".to_string(),
        "ip tuntap add dev tap7 mode tap".to_string(),
        "ip addr add 172.16.7.1/30 dev tap7".to_string(),
        "ip link set dev tap7 up".to_string(),
        "iptables -I FORWARD 1 -i tap7 -o eth0 -j ACCEPT".to_string(),
    ]);
}

#[test]
fn forwarding_setup_commands() {
    let forwarding = Forwarding::new("eth0");
    let cmds = forwarding.setup();
    let rendered: Vec<String> = cmds.iter().map(to_string).collect();
    assert_eq!(rendered, vec![
        "sh -c echo 1 > /proc/sys/net/ipv4/ip_forward".to_string(),
        "iptables -t nat -A POSTROUTING -o eth0 -j MASQUERADE".to_string(),
        "iptables -I FORWARD 1 -m conntrack --ctstate RELATED,ESTABLISHED -j ACCEPT".to_string(),
    ]);
}

#[test]
fn allocator_hands_out_lowest_free_slot() {
    let mut allocator = NetworkAllocator::new("eth0");
    let first = allocator.allocate().unwrap();
    assert_eq!(first.tap_name, "tap0");
    let second = allocator.allocate().unwrap();
    assert_eq!(second.tap_name, "tap1");
    allocator.deallocate(&0).unwrap();
    let reused = allocator.allocate().unwrap();
    assert_eq!(reused.tap_name, "tap0");
    let next = allocator.allocate().unwrap();
    assert_eq!(next.tap_name, "tap2");
}

#[test]
fn allocator_slots_stay_unique_and_in_range() {
    let mut allocator = NetworkAllocator::new("eth0");
    for _ in 0..10 {
        allocator.allocate().unwrap();
    }
    allocator.deallocate(&3).unwrap();
    allocator.deallocate(&7).unwrap();
    allocator.allocate().unwrap();
    allocator.allocate().unwrap();
    let mut seen = [false; 200];
    for slot in &allocator.allocations {
        assert!((*slot as usize) < 200);
        assert!(!seen[*slot as usize], "slot handed out twice");
        seen[*slot as usize] = true;
    }
    assert_eq!(allocator.allocations.len(), 10);
}

#[test]
fn allocator_exhaustion_after_two_hundred() {
    let mut allocator = NetworkAllocator::new("eth0");
    for _ in 0..200 {
        allocator.allocate().unwrap();
    }
    assert!(matches!(allocator.allocate(), Err(AllocatorError::NoFreeIps)));
}

#[test]
fn deallocate_is_always_ok() {
    let mut allocator = NetworkAllocator::new("eth0");
    assert!(allocator.deallocate(&42).is_ok());
    allocator.allocate().unwrap();
    assert!(allocator.deallocate(&0).is_ok());
    assert!(allocator.allocations.is_empty());
}
