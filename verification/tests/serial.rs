use cherry_hal::error::IoError;
use cherry_hal::mem::Mem;
use cherry_hal::pac::{Registry, UART1_BAUD, UART1_CTRL, UART1_RXD, UART1_STAT, UART1_TXD};
use cherry_hal::serial::{
    Config, Parity, StopBits, CLK_HZ, CTRL_EN, CTRL_PCE, CTRL_PS, CTRL_RXIE, CTRL_STOP2, STAT_FE,
    STAT_ORE, STAT_RXNE, STAT_TXE,
};

#[test]
fn default_config_is_115200_8n1() {
    let cfg = Config::default();
    assert_eq!(cfg.baud, 115200);
    assert_eq!(cfg.parity, Parity::ParityNone);
    assert_eq!(cfg.stop_bits, StopBits::One);
}

#[test]
fn serial_writes_baud_divisor_and_control() {
    let mut m = Mem::new();
    let mut reg = Registry::new();
    let uart = reg.take_uart1().unwrap();
    let _serial = uart.serial(Config::default(), &mut m);
    assert_eq!(m.load(UART1_BAUD), CLK_HZ / 115200);
    assert_eq!(m.load(UART1_BAUD), 69);
    assert_eq!(m.load(UART1_CTRL), CTRL_EN);
}

#[test]
fn serial_encodes_framing_bits() {
    let mut m = Mem::new();
    let cfg = Config { baud: 9600, parity: Parity::ParityOdd, stop_bits: StopBits::Two };
    let mut reg = Registry::new();
    let _serial = reg.take_uart1().unwrap().serial(cfg, &mut m);
    assert_eq!(m.load(UART1_BAUD), CLK_HZ / 9600);
    assert_eq!(m.load(UART1_CTRL), CTRL_EN | CTRL_PCE | CTRL_PS | CTRL_STOP2);

    let mut m2 = Mem::new();
    let cfg2 = Config { baud: 9600, parity: Parity::ParityEven, stop_bits: StopBits::One };
    let serial2 = cherry_hal::pac::Uart1::conjure().serial(cfg2, &mut m2);
    assert_eq!(m2.load(UART1_CTRL), CTRL_EN | CTRL_PCE);
    assert_eq!(serial2.config, cfg2);
}

#[test]
fn serial_preserves_listen_bit_across_reconfiguration() {
    let mut m = Mem::new();
    let serial = cherry_hal::pac::Uart1::conjure().serial(Config::default(), &mut m);
    serial.rx().listen(&mut m);
    assert_eq!(m.load(UART1_CTRL), CTRL_EN | CTRL_RXIE);
    // an interrupt handler conjuring its own handle reconfigures the port
    let _again = cherry_hal::pac::Uart1::conjure().serial(Config::default(), &mut m);
    assert_eq!(m.load(UART1_CTRL), CTRL_EN | CTRL_RXIE);
}

#[test]
fn listen_and_unlisten_touch_only_the_interrupt_enable() {
    let mut m = Mem::new();
    let serial = cherry_hal::pac::Uart1::conjure().serial(Config::default(), &mut m);
    serial.rx().listen(&mut m);
    assert_eq!(m.load(UART1_CTRL), CTRL_EN | CTRL_RXIE);
    serial.rx().listen(&mut m);
    assert_eq!(m.load(UART1_CTRL), CTRL_EN | CTRL_RXIE);
    serial.rx().unlisten(&mut m);
    assert_eq!(m.load(UART1_CTRL), CTRL_EN);
}

#[test]
fn round_trip_polls_block_then_deliver_the_byte() {
    let mut m = Mem::new();
    let serial = cherry_hal::pac::Uart1::conjure().serial(Config::default(), &mut m);
    m.store(UART1_STAT, STAT_TXE);

    // nothing has arrived: every poll is backpressure, never a fault
    assert_eq!(serial.read(&m), Err(IoError::WouldBlock));
    assert_eq!(serial.read(&m), Err(IoError::WouldBlock));

    assert_eq!(serial.write(&mut m, b'b'), Ok(()));
    assert_eq!(m.load(UART1_TXD), b'b' as u32);

    // the harness loops transmit to receive
    let txd = m.load(UART1_TXD);
    m.store(UART1_RXD, txd);
    let stat = m.load(UART1_STAT);
    m.store(UART1_STAT, stat | STAT_RXNE);

    assert_eq!(serial.read(&m), Ok(b'b'));
}

#[test]
fn halves_operate_independently() {
    let mut m = Mem::new();
    let serial = cherry_hal::pac::Uart1::conjure().serial(Config::default(), &mut m);
    m.store(UART1_STAT, STAT_TXE);
    assert_eq!(serial.tx().write(&mut m, 0x33), Ok(()));
    assert_eq!(m.load(UART1_TXD), 0x33);
    assert_eq!(serial.rx().read(&m), Err(IoError::WouldBlock));
    serial.rx().listen(&mut m);
    assert_eq!(m.load(UART1_CTRL) & CTRL_RXIE, CTRL_RXIE);
}

#[test]
fn write_reports_backpressure_when_transmitter_is_busy() {
    let mut m = Mem::new();
    let serial = cherry_hal::pac::Uart1::conjure().serial(Config::default(), &mut m);
    assert_eq!(serial.write(&mut m, 0x55), Err(IoError::WouldBlock));
    assert_eq!(m.load(UART1_TXD), 0);
}

#[test]
fn hardware_error_bits_surface_as_fault() {
    let mut m = Mem::new();
    let serial = cherry_hal::pac::Uart1::conjure().serial(Config::default(), &mut m);
    m.store(UART1_STAT, STAT_FE | STAT_RXNE);
    assert_eq!(serial.read(&m), Err(IoError::Fault));
    m.store(UART1_STAT, STAT_ORE | STAT_TXE);
    assert_eq!(serial.read(&m), Err(IoError::Fault));
    assert_eq!(serial.write(&mut m, 1), Err(IoError::Fault));
}

#[test]
fn read_delivers_low_byte_of_data_register() {
    let mut m = Mem::new();
    let serial = cherry_hal::pac::Uart1::conjure().serial(Config::default(), &mut m);
    m.store(UART1_RXD, 0x41);
    m.store(UART1_STAT, STAT_RXNE);
    assert_eq!(serial.read(&m), Ok(0x41));
}

#[test]
fn echo_step_echoes_received_byte() {
    let mut m = Mem::new();
    let serial = cherry_hal::pac::Uart1::conjure().serial(Config::default(), &mut m);
    m.store(UART1_RXD, 0x7a);
    m.store(UART1_STAT, STAT_RXNE | STAT_TXE);
    assert_eq!(serial.echo_step(&mut m), Ok(Some(0x7a)));
    assert_eq!(m.load(UART1_TXD), 0x7a);
}

#[test]
fn echo_step_is_idle_on_backpressure_and_surfaces_faults() {
    let mut m = Mem::new();
    let serial = cherry_hal::pac::Uart1::conjure().serial(Config::default(), &mut m);
    assert_eq!(serial.echo_step(&mut m), Ok(None));
    assert_eq!(m.load(UART1_TXD), 0);
    m.store(UART1_STAT, STAT_ORE);
    assert_eq!(serial.echo_step(&mut m), Err(IoError::Fault));
}
