use mipidsi::{BufferedInterface, FlushingError};

type UnitError = FlushingError<()>;

fn drain<DI, const M: usize>(bi: &mut BufferedInterface<'_, DI, M>) -> Vec<Vec<u8>> {
    let mut sent = Vec::new();
    while let Some((start, len)) = bi.flush_step() {
        let (_, bytes) = bi.transfer_parts(start, len);
        sent.push(bytes.to_vec());
    }
    sent
}

#[test]
fn new_is_empty() {
    let mut buf = [0u8; 8];
    let bi: BufferedInterface<'_, u32, 4> = BufferedInterface::new(5, &mut buf);
    assert_eq!(bi.index(), 0);
    assert_eq!(bi.queued_len(), 0);
    assert_eq!(bi.buffer_len(), 8);
}

#[test]
fn flush_sends_operations_oldest_first() {
    let mut buf = [0u8; 16];
    let mut bi: BufferedInterface<'_, (), 4> = BufferedInterface::new((), &mut buf);
    assert!(bi.send_pixels::<(), 2>(&[[1, 2], [3, 4]]).is_ok());
    assert!(bi.send_pixels::<(), 3>(&[[5, 6, 7]]).is_ok());
    assert_eq!(bi.index(), 7);
    assert_eq!(bi.queued_len(), 2);
    let sent = drain(&mut bi);
    assert_eq!(sent, vec![vec![1, 2, 3, 4], vec![5, 6, 7]]);
    assert_eq!(bi.index(), 0);
    assert_eq!(bi.queued_len(), 0);
}

#[test]
fn pixels_may_fill_the_buffer_exactly() {
    let mut buf = [0u8; 4];
    let mut bi: BufferedInterface<'_, (), 4> = BufferedInterface::new((), &mut buf);
    assert!(bi.send_pixels::<(), 2>(&[[1, 2], [3, 4]]).is_ok());
    assert_eq!(bi.index(), 4);
    assert_eq!(drain(&mut bi), vec![vec![1, 2, 3, 4]]);
}

#[test]
fn overflowing_pixels_are_not_queued() {
    let mut buf = [0u8; 3];
    let mut bi: BufferedInterface<'_, (), 4> = BufferedInterface::new((), &mut buf);
    let r: Result<(), UnitError> = bi.send_pixels(&[[1, 2], [3, 4]]);
    assert!(matches!(r, Err(FlushingError::BufferOverflow)));
    assert_eq!(bi.index(), 0);
    assert_eq!(bi.queued_len(), 0);
    let (_, bytes) = bi.transfer_parts(0, 3);
    assert_eq!(bytes, &[1, 2, 3]);
}

#[test]
fn too_many_operations() {
    let mut buf = [0u8; 16];
    let mut bi: BufferedInterface<'_, (), 2> = BufferedInterface::new((), &mut buf);
    assert!(bi.send_pixels::<(), 1>(&[[1]]).is_ok());
    assert!(bi.send_pixels::<(), 1>(&[[2]]).is_ok());
    let r: Result<(), UnitError> = bi.send_pixels(&[[3]]);
    assert!(matches!(r, Err(FlushingError::MaxOperationsReached)));
    assert_eq!(bi.index(), 2);
    assert_eq!(bi.queued_len(), 2);
    assert_eq!(drain(&mut bi), vec![vec![1], vec![2]]);
    assert!(bi.send_pixels::<(), 1>(&[[9]]).is_ok());
    assert_eq!(drain(&mut bi), vec![vec![9]]);
}

#[test]
fn empty_transfer_queues_an_empty_operation() {
    let mut buf = [0u8; 4];
    let mut bi: BufferedInterface<'_, (), 4> = BufferedInterface::new((), &mut buf);
    let none: [[u8; 2]; 0] = [];
    assert!(bi.send_pixels::<(), 2>(&none).is_ok());
    assert_eq!(bi.queued_len(), 1);
    assert_eq!(drain(&mut bi), vec![Vec::<u8>::new()]);
}

#[test]
fn repeated_pixel_from_empty_buffer() {
    let mut buf = [0u8; 8];
    let mut bi: BufferedInterface<'_, (), 4> = BufferedInterface::new((), &mut buf);
    assert!(bi.send_repeated_pixel::<(), 2>([0xAB, 0xCD], 3).is_ok());
    assert_eq!(bi.index(), 6);
    assert_eq!(drain(&mut bi), vec![vec![0xAB, 0xCD, 0xAB, 0xCD, 0xAB, 0xCD]]);
}

#[test]
fn repeated_pixel_follows_queued_pixels() {
    let mut buf = [0u8; 8];
    let mut bi: BufferedInterface<'_, (), 4> = BufferedInterface::new((), &mut buf);
    assert!(bi.send_pixels::<(), 2>(&[[1, 2]]).is_ok());
    assert!(bi.send_repeated_pixel::<(), 2>([7, 8], 2).is_ok());
    assert_eq!(bi.index(), 6);
    {
        let (_, bytes) = bi.transfer_parts(0, 8);
        assert_eq!(bytes, &[1, 2, 7, 8, 7, 8, 0, 0]);
    }
    assert_eq!(drain(&mut bi), vec![vec![1, 2], vec![7, 8, 7, 8]]);
    drop(bi);
    assert_eq!(buf, [1, 2, 7, 8, 7, 8, 0, 0]);
}

#[test]
fn repeated_pixel_may_fill_the_buffer_exactly() {
    let mut buf = [0u8; 6];
    let mut bi: BufferedInterface<'_, (), 4> = BufferedInterface::new((), &mut buf);
    assert!(bi.send_repeated_pixel::<(), 2>([1, 2], 3).is_ok());
    assert_eq!(bi.index(), 6);
    assert_eq!(drain(&mut bi), vec![vec![1, 2, 1, 2, 1, 2]]);
}

#[test]
fn repeated_pixel_overflow() {
    let mut buf = [0u8; 6];
    let mut bi: BufferedInterface<'_, (), 4> = BufferedInterface::new((), &mut buf);
    assert!(bi.send_pixels::<(), 1>(&[[5]]).is_ok());
    let r: Result<(), UnitError> = bi.send_repeated_pixel([1, 2], 3);
    assert!(matches!(r, Err(FlushingError::BufferOverflow)));
    assert_eq!(bi.queued_len(), 1);
    assert_eq!(bi.index(), 1);
    let (_, bytes) = bi.transfer_parts(0, 6);
    assert_eq!(bytes, &[5, 0, 0, 0, 0, 0]);
}

#[test]
fn repeated_pixel_too_many_operations() {
    let mut buf = [0u8; 8];
    let mut bi: BufferedInterface<'_, (), 1> = BufferedInterface::new((), &mut buf);
    assert!(bi.send_pixels::<(), 1>(&[[1]]).is_ok());
    let r: Result<(), UnitError> = bi.send_repeated_pixel([7], 2);
    assert!(matches!(r, Err(FlushingError::MaxOperationsReached)));
    assert_eq!(bi.index(), 1);
    let (_, bytes) = bi.transfer_parts(0, 3);
    assert_eq!(bytes, &[1, 0, 0]);
}

#[test]
fn interface_is_reachable() {
    let mut buf = [0u8; 2];
    let mut bi: BufferedInterface<'_, u32, 4> = BufferedInterface::new(1, &mut buf);
    *bi.interface_mut() += 41;
    let (di, _) = bi.transfer_parts(0, 0);
    assert_eq!(*di, 42);
}

#[test]
fn error_from_interface_error() {
    let e: FlushingError<u8> = FlushingError::from(3u8);
    assert!(matches!(e, FlushingError::Internal(3)));
}
