use mipidsi::{
    ColorOrder, InitAction, InitProgress, ModelOptions, Orientation, GC9107, ST7735s, ST7789V,
};

fn sequence(mut step: impl FnMut(usize) -> Option<InitAction>) -> Vec<InitAction> {
    let mut out = Vec::new();
    let mut k = 0;
    while let Some(a) = step(k) {
        out.push(a);
        k += 1;
    }
    out
}

fn command(a: &InitAction) -> (u8, Vec<u8>) {
    match a {
        InitAction::Command(i, p) => (*i, p.clone()),
        InitAction::Delay(_) => panic!("expected a command"),
    }
}

fn delay(a: &InitAction) -> u32 {
    match a {
        InitAction::Delay(us) => *us,
        InitAction::Command(..) => panic!("expected a delay"),
    }
}

#[test]
fn st7735s_sequence() {
    let options = ModelOptions::with_display_size(128, 160);
    let seq = sequence(|k| ST7735s.init_action(&options, k));
    assert_eq!(seq.len(), 19);
    assert_eq!(delay(&seq[0]), 200_000);
    assert_eq!(command(&seq[1]), (0x11, vec![]));
    assert_eq!(delay(&seq[2]), 120_000);
    assert_eq!(command(&seq[3]), (0x20, vec![]));
    assert_eq!(command(&seq[4]), (0xB1, vec![0x05, 0x3A, 0x3A]));
    assert_eq!(command(&seq[6]), (0xB3, vec![0x05, 0x3A, 0x3A, 0x05, 0x3A, 0x3A]));
    assert_eq!(command(&seq[14]).1.len(), 16);
    assert_eq!(command(&seq[16]), (0x3A, vec![0x55]));
    assert_eq!(command(&seq[17]), (0x36, vec![0x00]));
    assert_eq!(command(&seq[18]), (0x29, vec![]));
    assert_eq!(ST7735s.framebuffer_size(), (132, 162));
}

#[test]
fn gc9107_sequence() {
    let mut options = ModelOptions::with_display_size(128, 128);
    options.invert_colors = true;
    options.orientation = Orientation::Landscape(false);
    options.color_order = ColorOrder::Bgr;
    let seq = sequence(|k| GC9107.init_action(&options, k));
    assert_eq!(seq.len(), 24);
    assert_eq!(delay(&seq[0]), 200_000);
    assert_eq!(command(&seq[1]), (0x36, vec![0x28]));
    assert_eq!(command(&seq[2]), (0xB0, vec![0xC0]));
    assert_eq!(command(&seq[11]), (0x3A, vec![0x55]));
    assert_eq!(command(&seq[18]).0, 0xF0);
    assert_eq!(command(&seq[18]).1.len(), 14);
    assert_eq!(command(&seq[20]), (0x21, vec![]));
    assert_eq!(command(&seq[21]), (0x11, vec![]));
    assert_eq!(delay(&seq[22]), 120_000);
    assert_eq!(command(&seq[23]), (0x29, vec![]));
    assert_eq!(GC9107.framebuffer_size(), (128, 160));
}

#[test]
fn st7789v_sequence() {
    let options = ModelOptions::with_display_size(240, 320);
    let seq = sequence(|k| ST7789V.init_action(&options, k));
    assert_eq!(seq.len(), 26);
    assert_eq!(delay(&seq[0]), 150_000);
    assert_eq!(command(&seq[3]), (0x36, vec![0x00]));
    assert_eq!(command(&seq[4]), (0x3A, vec![0x55]));
    assert_eq!(delay(&seq[5]), 10_000);
    assert_eq!(command(&seq[6]), (0xB2, vec![0x0C, 0x0C, 0x00, 0x33, 0x33]));
    assert_eq!(command(&seq[17]), (0x20, vec![]));
    assert_eq!(command(&seq[18]), (0x2A, vec![0x00, 0x00, 0x00, 0xEF]));
    assert_eq!(command(&seq[19]), (0x2B, vec![0x00, 0x00, 0x01, 0x3F]));
    assert_eq!(command(&seq[20]), (0x3A, vec![0x55]));
    assert_eq!(command(&seq[22]), (0x13, vec![]));
    assert_eq!(command(&seq[24]), (0x29, vec![]));
    assert_eq!(delay(&seq[25]), 120_000);
    assert_eq!(ST7789V.framebuffer_size(), (240, 320));
}

#[test]
fn sequences_end_and_stay_ended() {
    let options = ModelOptions::with_display_size(240, 320);
    assert!(ST7735s.init_action(&options, 19).is_none());
    assert!(GC9107.init_action(&options, 24).is_none());
    assert!(ST7789V.init_action(&options, 26).is_none());
    assert!(ST7789V.init_action(&options, usize::MAX).is_none());
}

#[test]
fn init_next_stops_at_first_error() {
    let options = ModelOptions::with_display_size(240, 320);
    let next = ST7789V.init_next(&options, 4, Err::<(), u8>(7));
    assert!(matches!(next, InitProgress::Failed(7)));
    let next = ST7789V.init_next(&options, 4, Ok::<(), u8>(()));
    match next {
        InitProgress::Perform(a) => assert_eq!(command(&a), (0x3A, vec![0x55])),
        _ => panic!("expected a step"),
    }
}

#[test]
fn init_next_finishes_with_address_mode() {
    let mut options = ModelOptions::with_display_size(128, 160);
    options.orientation = Orientation::PortraitInverted(false);
    options.color_order = ColorOrder::Bgr;
    for (k, next) in [
        (19, ST7735s.init_next(&options, 19, Ok::<(), ()>(()))),
        (24, GC9107.init_next(&options, 24, Ok::<(), ()>(()))),
    ] {
        match next {
            InitProgress::Done(m) => assert_eq!(m.value(), 0xC8, "after {k} steps"),
            _ => panic!("expected the end"),
        }
    }
    assert!(matches!(
        GC9107.init_next(&options, 0, Ok::<(), ()>(())),
        InitProgress::Perform(InitAction::Delay(200_000))
    ));
}

#[test]
fn init_runs_to_completion() {
    let options = ModelOptions::with_display_size(128, 160);
    let mut sent = Vec::new();
    let mut step = 0;
    let mut last: Result<(), ()> = Ok(());
    let madctl = loop {
        match ST7735s.init_next(&options, step, last) {
            InitProgress::Perform(InitAction::Command(i, p)) => {
                sent.push((i, p));
                last = Ok(());
            }
            InitProgress::Perform(InitAction::Delay(_)) => last = Ok(()),
            InitProgress::Done(m) => break m,
            InitProgress::Failed(()) => panic!("no step fails here"),
        }
        step += 1;
    };
    assert_eq!(step, 19);
    assert_eq!(sent.len(), 17);
    assert_eq!(madctl.value(), 0x00);
}
