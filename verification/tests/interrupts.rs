use cherry_hal::intc::IntCtl;

#[test]
fn trigger_is_delivered_exactly_once() {
    let mut ctl = IntCtl::new();
    ctl.enable_interrupts();
    ctl.enable_external_interrupt();
    ctl.raise();
    assert!(ctl.dispatch());
    // the single pending trigger was consumed: no double delivery
    assert!(!ctl.dispatch());
    // a new trigger is a new delivery
    ctl.raise();
    assert!(ctl.dispatch());
}

#[test]
fn nothing_is_delivered_while_masked() {
    let mut ctl = IntCtl::new();
    ctl.enable_external_interrupt();
    ctl.raise();
    // global enable is still down
    assert!(!ctl.dispatch());
    ctl.enable_interrupts();
    assert!(ctl.dispatch());
}

#[test]
fn source_must_be_unmasked() {
    let mut ctl = IntCtl::new();
    ctl.enable_interrupts();
    ctl.raise();
    assert!(!ctl.dispatch());
    ctl.enable_external_interrupt();
    assert!(ctl.dispatch());
}

#[test]
fn critical_section_defers_but_does_not_lose_the_trigger() {
    let mut ctl = IntCtl::new();
    ctl.enable_interrupts();
    ctl.enable_external_interrupt();
    let prev = ctl.disable_interrupts();
    assert!(prev);
    ctl.raise();
    assert!(!ctl.dispatch());
    ctl.restore_interrupts(prev);
    assert!(ctl.dispatch());
    assert!(!ctl.dispatch());
}
