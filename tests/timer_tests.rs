use gameboy::cpu::timer::Timer;

#[test]
fn test_timer_creation() {
    let timer = Timer::new();
    assert_eq!(timer.read_div(), 0);
    assert_eq!(timer.tima, 0);
    assert_eq!(timer.tma, 0);
    assert_eq!(timer.tac, 0);
}

#[test]
fn test_div_increment() {
    let mut timer = Timer::new();
    for _ in 0..256 {
        timer.tick();
    }
    assert_eq!(timer.read_div(), 1);
}

#[test]
fn test_div_write_resets() {
    let mut timer = Timer::new();
    for _ in 0..512 {
        timer.tick();
    }
    assert_eq!(timer.read_div(), 2);
    timer.write_div();
    assert_eq!(timer.read_div(), 0);
}

#[test]
fn test_timer_disabled() {
    let mut timer = Timer::new();
    timer.tac = 0x00;
    timer.tima = 0;
    for _ in 0..10000 {
        timer.tick();
    }
    assert_eq!(timer.tima, 0);
}

#[test]
fn test_timer_overflow_interrupt() {
    let mut timer = Timer::new();
    timer.tac = 0x05;
    timer.tima = 0xFF;
    timer.tma = 0x42;

    for _ in 0..16 {
        timer.tick();
    }

    assert_eq!(timer.tima, 0x42);
    assert!(timer.interrupt_request);
}

#[test]
fn test_timer_frequency_selection() {
    let mut timer = Timer::new();
    timer.tac = 0x05;
    timer.tima = 0x00;

    for _ in 0..16 {
        timer.tick();
    }
    assert_eq!(timer.tima, 1);

    for _ in 0..16 {
        timer.tick();
    }
    assert_eq!(timer.tima, 2);
}
