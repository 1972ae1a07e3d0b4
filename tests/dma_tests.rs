use gameboy::dma::Dma;

#[test]
fn test_dma_creation() {
    let dma = Dma::new();
    assert!(!dma.is_active());
    assert_eq!(dma.source, 0);
}

#[test]
fn test_dma_start() {
    let mut dma = Dma::new();
    dma.start(0xC0);
    assert!(dma.is_active());
    assert_eq!(dma.source_address(), 0xC000);
    assert_eq!(dma.read(), 0xC0);
}

#[test]
fn test_dma_transfer_addresses() {
    let mut dma = Dma::new();
    dma.start(0xC0);

    let result = dma.tick();
    assert!(result.is_some());
    let (src, dst) = result.unwrap();
    assert_eq!(src, 0xC000);
    assert_eq!(dst, 0xFE00);
}

#[test]
fn test_dma_completes() {
    let mut dma = Dma::new();
    dma.start(0xC0);

    let mut transfer_count = 0;
    for _ in 0..700 {
        if dma.tick().is_some() {
            transfer_count += 1;
        }
    }

    assert_eq!(transfer_count, 160);
    assert!(!dma.is_active());
}

#[test]
fn test_dma_inactive_tick() {
    let mut dma = Dma::new();
    assert!(dma.tick().is_none());
}
