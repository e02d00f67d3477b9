use cherry_hal::mem::Mem;
use cherry_hal::pac::{Registry, GPIOA_DIR, GPIOA_IDR, GPIOA_ODR};

#[test]
fn into_output_sets_direction_bit() {
    let mut m = Mem::new();
    let mut reg = Registry::new();
    let pins = reg.take_gpioa().unwrap().split();
    let _led = pins.pa3.into_output(&mut m);
    assert_eq!(m.load(GPIOA_DIR), 1 << 3);
    let _led2 = pins.pa0.into_output(&mut m);
    assert_eq!(m.load(GPIOA_DIR), (1 << 3) | 1);
}

#[test]
fn into_input_clears_direction_bit() {
    let mut m = Mem::new();
    let mut reg = Registry::new();
    let pins = reg.take_gpioa().unwrap().split();
    let _out = pins.pa5.into_output(&mut m);
    assert_eq!(m.load(GPIOA_DIR), 1 << 5);
    let _btn = pins.pa31.into_input(&mut m);
    assert_eq!(m.load(GPIOA_DIR), 1 << 5);
}

#[test]
fn loopback_observes_driven_level() {
    let mut m = Mem::new();
    let mut reg = Registry::new();
    let pins = reg.take_gpioa().unwrap().split();
    let led = pins.pa0.into_output(&mut m);
    let btn = pins.pa1.into_input(&mut m);

    led.set_level(&mut m, true);
    // the harness wires line 0's output onto line 1's input
    let odr = m.load(GPIOA_ODR);
    m.store(GPIOA_IDR, if odr & 1 != 0 { 1 << 1 } else { 0 });
    assert_eq!(btn.is_high(&m), Ok(true));

    led.set_level(&mut m, false);
    let odr = m.load(GPIOA_ODR);
    m.store(GPIOA_IDR, if odr & 1 != 0 { 1 << 1 } else { 0 });
    assert_eq!(btn.is_high(&m), Ok(false));
    assert_eq!(btn.is_low(&m), Ok(true));
}

#[test]
fn toggle_flips_observed_level_exactly_once() {
    let mut m = Mem::new();
    let mut reg = Registry::new();
    let pins = reg.take_gpioa().unwrap().split();
    let led = pins.pa2.into_output(&mut m);
    let btn = pins.pa6.into_input(&mut m);

    // the harness wires line 2's output onto line 6's input
    let wire = |m: &mut Mem| {
        let odr = m.load(GPIOA_ODR);
        m.store(GPIOA_IDR, if odr & (1 << 2) != 0 { 1 << 6 } else { 0 });
    };

    led.set_high(&mut m).unwrap();
    wire(&mut m);
    assert_eq!(btn.is_high(&m), Ok(true));

    led.toggle(&mut m).unwrap();
    wire(&mut m);
    assert_eq!(btn.is_high(&m), Ok(false));

    led.toggle(&mut m).unwrap();
    wire(&mut m);
    assert_eq!(btn.is_high(&m), Ok(true));
}

#[test]
fn driving_one_line_leaves_others() {
    let mut m = Mem::new();
    let mut reg = Registry::new();
    let pins = reg.take_gpioa().unwrap().split();
    let a = pins.pa4.into_output(&mut m);
    let b = pins.pa7.into_output(&mut m);
    a.set_high(&mut m).unwrap();
    b.set_high(&mut m).unwrap();
    a.set_low(&mut m).unwrap();
    assert_eq!(m.load(GPIOA_ODR), 1 << 7);
    b.toggle(&mut m).unwrap();
    assert_eq!(m.load(GPIOA_ODR), 0);
}
