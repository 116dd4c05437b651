use std::cell::Cell;
use std::cell::RefCell;

use ober::config::Address;
use ober::config::Opt;
use ober::port::first_step;
use ober::port::get_port;
use ober::port::next_step;
use ober::port::Step;
use ober::port::END_PORT;
use ober::port::FIRST_PORT;

fn opt_with(port: Option<u16>) -> Opt {
    Opt { port, address: Address::new(127, 0, 0, 1), path: String::from("./"), silent: false }
}

#[test]
fn range_is_8080_up_to_65535() {
    assert_eq!(FIRST_PORT, 8080);
    assert_eq!(END_PORT, 65535);
}

#[test]
fn explicit_port_is_used_without_a_probe() {
    assert_eq!(first_step(Some(3000)), Step::Use(3000));
    assert_eq!(first_step(Some(0)), Step::Use(0));
    assert_eq!(first_step(Some(65535)), Step::Use(65535));
}

#[test]
fn search_starts_at_8080() {
    assert_eq!(first_step(None), Step::Probe(8080));
}

#[test]
fn bound_probe_settles_the_port() {
    assert_eq!(next_step(8080, true), Step::Use(8080));
    assert_eq!(next_step(65534, true), Step::Use(65534));
}

#[test]
fn failed_probe_moves_to_the_next_port() {
    assert_eq!(next_step(8080, false), Step::Probe(8081));
    assert_eq!(next_step(65532, false), Step::Probe(65533));
    assert_eq!(next_step(65533, false), Step::Probe(65534));
}

#[test]
fn search_ends_before_65535() {
    assert_eq!(next_step(65534, false), Step::Fail);
    assert_eq!(next_step(65535, false), Step::Fail);
}

#[test]
fn get_port_returns_the_explicit_port_and_never_probes() {
    let calls = Cell::new(0u32);
    let port = get_port(&opt_with(Some(80)), |_, _| {
        calls.set(calls.get() + 1);
        false
    });
    assert_eq!(port, Some(80));
    assert_eq!(calls.get(), 0);
}

#[test]
fn get_port_takes_8080_when_it_is_free() {
    let calls = Cell::new(0u32);
    let port = get_port(&opt_with(None), |_, _| {
        calls.set(calls.get() + 1);
        true
    });
    assert_eq!(port, Some(8080));
    assert_eq!(calls.get(), 1);
}

#[test]
fn get_port_finds_the_lowest_free_port() {
    let port = get_port(&opt_with(None), |_, p| p == 8090 || p == 9000 || p == 8085);
    assert_eq!(port, Some(8085));
}

#[test]
fn get_port_probes_in_rising_order_and_stops() {
    let seen = RefCell::new(Vec::new());
    let port = get_port(&opt_with(None), |_, p| {
        seen.borrow_mut().push(p);
        p >= 8083
    });
    assert_eq!(port, Some(8083));
    assert_eq!(seen.into_inner(), vec![8080, 8081, 8082, 8083]);
}

#[test]
fn get_port_hands_the_address_to_the_probe() {
    let seen = RefCell::new(Vec::new());
    let opt = Opt {
        port: None,
        address: Address::new(10, 1, 2, 3),
        path: String::from("./"),
        silent: true,
    };
    let port = get_port(&opt, |a, p| {
        seen.borrow_mut().push(a);
        p == 8081
    });
    assert_eq!(port, Some(8081));
    assert_eq!(seen.into_inner(), vec![Address::new(10, 1, 2, 3), Address::new(10, 1, 2, 3)]);
}

#[test]
fn get_port_ignores_free_ports_below_the_range() {
    let port = get_port(&opt_with(None), |_, p| p < 8080 || p == 12000);
    assert_eq!(port, Some(12000));
}

#[test]
fn get_port_can_end_on_the_last_port_of_the_range() {
    let port = get_port(&opt_with(None), |_, p| p >= 65534);
    assert_eq!(port, Some(65534));
}

#[test]
fn get_port_fails_when_nothing_in_the_range_is_free() {
    let calls = Cell::new(0u32);
    let highest = Cell::new(0u16);
    let port = get_port(&opt_with(None), |_, p| {
        calls.set(calls.get() + 1);
        highest.set(p);
        false
    });
    assert_eq!(port, None);
    assert_eq!(calls.get(), 65535 - 8080);
    assert_eq!(highest.get(), 65534);
}

#[test]
fn get_port_never_tries_65535() {
    let port = get_port(&opt_with(None), |_, p| p == 65535);
    assert_eq!(port, None);
}

#[test]
fn steps_by_hand_agree_with_get_port() {
    let free = |p: u16| p == 8084;
    let mut step = first_step(None);
    let mut probed = Vec::new();
    let found = loop {
        match step {
            Step::Probe(p) => {
                probed.push(p);
                step = next_step(p, free(p));
            }
            Step::Use(p) => break Some(p),
            Step::Fail => break None,
        }
    };
    assert_eq!(found, Some(8084));
    assert_eq!(probed, vec![8080, 8081, 8082, 8083, 8084]);
    assert_eq!(get_port(&opt_with(None), |_, p| free(p)), found);
}

#[test]
fn default_options() {
    let opt = Opt::default();
    assert_eq!(opt.port, None);
    assert_eq!(opt.address, Address::new(0, 0, 0, 0));
    assert_eq!(opt.address, Address::unspecified());
    assert_eq!(opt.path, "./");
    assert!(!opt.silent);
}

#[test]
fn address_text_and_octets() {
    assert_eq!(Address::unspecified().to_text(), "0.0.0.0");
    assert_eq!(Address::new(127, 0, 0, 1).to_text(), "127.0.0.1");
    assert_eq!(Address::new(255, 255, 255, 255).to_text(), "255.255.255.255");
    assert_eq!(Address::new(192, 168, 10, 9).octets(), [192, 168, 10, 9]);
}
