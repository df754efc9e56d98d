use rknx::utils::fsm::Fsm;
use std::sync::{Arc, Mutex};

#[derive(Debug, Clone, Copy, PartialEq, Eq)]
enum Light {
    Off,
    On,
}

#[derive(Debug, Clone, Copy, PartialEq, Eq)]
enum Press {
    Toggle,
    Reset,
}

#[test]
fn transitions_follow_the_table_and_reach_the_callback() {
    let seen: Arc<Mutex<Vec<(Light, Light)>>> = Arc::new(Mutex::new(Vec::new()));
    let log = Arc::clone(&seen);
    let table = vec![
        (Light::Off, vec![(Press::Toggle, Light::On)]),
        (Light::On, vec![(Press::Toggle, Light::Off), (Press::Reset, Light::Off)]),
    ];
    let mut fsm = Fsm::new(Light::Off, table, move |new, old| log.lock().unwrap().push((new, old)));
    assert_eq!(fsm.state(), Light::Off);
    assert!(!fsm.transition(Press::Reset));
    assert_eq!(fsm.state(), Light::Off);
    assert!(fsm.transition(Press::Toggle));
    assert_eq!(fsm.state(), Light::On);
    assert!(fsm.transition(Press::Reset));
    assert_eq!(fsm.state(), Light::Off);
    assert_eq!(*seen.lock().unwrap(), vec![(Light::On, Light::Off), (Light::Off, Light::On)]);
}

#[test]
fn forcing_a_state_skips_the_callback() {
    let count = Arc::new(Mutex::new(0u32));
    let c = Arc::clone(&count);
    let mut fsm = Fsm::new(1u8, vec![(1u8, vec![(7u8, 2u8)])], move |_, _| *c.lock().unwrap() += 1);
    fsm.force_state(3);
    assert_eq!(fsm.state(), 3);
    assert!(!fsm.transition(7));
    assert_eq!(*count.lock().unwrap(), 0);
}
