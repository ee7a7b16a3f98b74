use st7789_pio::action::Action;
use st7789_pio::driver::{addr_window_bytes, queue_word, St7789};

/// The framing transitions of a run: the (dc, cs) pair of each Frame action.
fn framing_pairs(actions: &[Action]) -> Vec<(bool, bool)> {
    let mut out = Vec::new();
    for a in actions {
        if let Action::Frame { dc, cs } = a {
            out.push((*dc, *cs));
        }
    }
    out
}

/// All bytes a run hands to the transmit queue, in order.
fn all_bytes(actions: &[Action]) -> Vec<u8> {
    let mut out = Vec::new();
    for a in actions {
        if let Action::Enqueue(b) = a {
            out.push(*b);
        }
    }
    out
}

/// The bytes a run enqueues while the framing lines stand at (dc, cs),
/// starting from the levels a fresh driver establishes (dc low, deselected).
fn bytes_framed(actions: &[Action], want_dc: bool, want_cs: bool) -> Vec<u8> {
    let mut dc = false;
    let mut cs = true;
    let mut out = Vec::new();
    for a in actions {
        match a {
            Action::Frame { dc: d, cs: c } => {
                dc = *d;
                cs = *c;
            }
            Action::Enqueue(b) => {
                if dc == want_dc && cs == want_cs {
                    out.push(*b);
                }
            }
            _ => {}
        }
    }
    out
}

/// The delays of a run that are longer than the one-microsecond pin settle.
fn long_delays(actions: &[Action]) -> Vec<u64> {
    let mut out = Vec::new();
    for a in actions {
        if let Action::Delay(us) = a {
            if *us > 1 {
                out.push(*us);
            }
        }
    }
    out
}

#[test]
fn new_establishes_idle_pins() {
    let (st, acts) = St7789::new(21, 20);
    assert_eq!(
        acts,
        vec![
            Action::Backlight(false),
            Action::Frame { dc: false, cs: true },
            Action::Reset(true),
        ]
    );
    assert!(!st.dc);
    assert!(st.cs);
    assert!(!st.backlight);
    assert!(st.rst);
    assert!(st.running);
    assert_eq!(st.framebuffer.len(), 240 * 320);
    assert!(st.framebuffer.iter().all(|px| *px == 0));
}

#[test]
fn set_dc_cs_settles_around_transition() {
    let (mut st, _) = St7789::new(21, 20);
    let acts = st.set_dc_cs(true, false);
    assert_eq!(
        acts,
        vec![
            Action::Delay(1),
            Action::Frame { dc: true, cs: false },
            Action::Delay(1),
        ]
    );
    assert!(st.dc);
    assert!(!st.cs);
}

#[test]
fn write_cmd_single_byte_never_enters_data_framing() {
    let (mut st, _) = St7789::new(21, 20);
    let acts = st.write_cmd(&[0x01]);
    assert_eq!(framing_pairs(&acts), vec![(false, false), (true, true)]);
    assert!(!framing_pairs(&acts).contains(&(true, false)));
    assert_eq!(all_bytes(&acts), vec![0x01]);
    assert!(st.dc);
    assert!(st.cs);
}

#[test]
fn write_cmd_multi_byte_frames_once_per_phase() {
    let (mut st, _) = St7789::new(21, 20);
    let acts = st.write_cmd(&[0x3A, 0x55]);
    assert_eq!(
        framing_pairs(&acts),
        vec![(false, false), (true, false), (true, true)]
    );
    let long = st.write_cmd(&[0x2A, 0x00, 0x00, 0x00, 0xF0]);
    assert_eq!(
        framing_pairs(&long),
        vec![(false, false), (true, false), (true, true)]
    );
    assert_eq!(bytes_framed(&long, false, false), vec![0x2A]);
    assert_eq!(bytes_framed(&long, true, false), vec![0x00, 0x00, 0x00, 0xF0]);
}

#[test]
fn write_cmd_drains_before_every_framing_change() {
    let (mut st, _) = St7789::new(21, 20);
    let acts = st.write_cmd(&[0x3A, 0x55]);
    // Every Frame action is directly preceded by a settle delay which is
    // directly preceded by a drain.
    for (i, a) in acts.iter().enumerate() {
        if let Action::Frame { .. } = a {
            assert_eq!(acts[i - 1], Action::Delay(1));
            assert_eq!(acts[i - 2], Action::Drain);
        }
    }
}

#[test]
fn push_framebuffer_emits_two_bytes_per_pixel() {
    let (mut st, _) = St7789::new(21, 20);
    let acts = st.push_framebuffer();
    // The run opens with the memory-write command and one data framing:
    // 9 actions for the one-byte command, 3 for the framing.
    let prefix = 12;
    assert_eq!(bytes_framed(&acts[..prefix], false, false), vec![0x2C]);
    assert_eq!(acts.len(), prefix + 2 * 240 * 320);
    assert!(acts[prefix..]
        .iter()
        .all(|a| *a == Action::Enqueue(0xFF)));
    assert_eq!(all_bytes(&acts).len(), 153601);
    assert!(!st.cs);
    assert!(st.dc);
}

#[test]
fn addr_window_encodes_big_endian() {
    assert_eq!(addr_window_bytes(0x2A, 240), vec![0x2A, 0x00, 0x00, 0x00, 0xF0]);
    assert_eq!(addr_window_bytes(0x2B, 320), vec![0x2B, 0x00, 0x00, 0x01, 0x40]);
    let wide = addr_window_bytes(0x2A, 0xABCD);
    assert_eq!(wide[3], 0xAB);
    assert_eq!(wide[4], 0xCD);
    assert_eq!((wide[3] as u16) << 8 | wide[4] as u16, 0xABCD);
}

#[test]
fn init_issues_commands_in_order() {
    let (mut st, _) = St7789::new(21, 20);
    let acts = st.init();
    assert_eq!(
        bytes_framed(&acts, false, false),
        vec![0x01, 0x11, 0x3A, 0x36, 0x2A, 0x2B, 0x21, 0x13, 0x29, 0x2C]
    );
    assert_eq!(
        long_delays(&acts),
        vec![100000, 50000, 10000, 10000, 10000, 10000]
    );
    // Parameter bytes, then the full pixel payload, all under data framing.
    let data = bytes_framed(&acts, true, false);
    assert_eq!(data.len(), 1 + 1 + 4 + 4 + 2 * 240 * 320);
    assert_eq!(
        &data[..10],
        &[0x55, 0x00, 0x00, 0x00, 0x00, 0xF0, 0x00, 0x00, 0x01, 0x40]
    );
    assert!(data[10..].iter().all(|b| *b == 0xFF));
    // The run ends with the backlight and leaves the bus in data framing.
    assert_eq!(acts.last(), Some(&Action::Backlight(true)));
    assert!(st.backlight);
    assert!(st.dc);
    assert!(!st.cs);
}

#[test]
fn queue_word_is_left_justified() {
    assert_eq!(queue_word(0xAB), 0xAB00_0000);
    assert_eq!(queue_word(0x01), 0x0100_0000);
    assert_eq!(queue_word(0x00), 0x0000_0000);
    assert_eq!(queue_word(0xFF), 0xFF00_0000);
}

#[test]
fn backlight_actions() {
    let (mut st, _) = St7789::new(21, 20);
    let on = st.backlight_on();
    assert_eq!(on, vec![Action::Backlight(true)]);
    assert!(st.backlight);
    let off = st._backlight_off();
    assert_eq!(off, vec![Action::Backlight(false)]);
    assert!(!st.backlight);
}
