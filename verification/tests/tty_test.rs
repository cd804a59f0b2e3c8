use rusty_bubbletea::tty::{raw_mode_settings, RawModeBits, TermSettings};

fn linux_bits() -> RawModeBits {
    RawModeBits {
        ignbrk: 0o1,
        brkint: 0o2,
        parmrk: 0o10,
        istrip: 0o40,
        inlcr: 0o100,
        igncr: 0o200,
        icrnl: 0o400,
        ixon: 0o2000,
        opost: 0o1,
        echo: 0o10,
        echonl: 0o100,
        icanon: 0o2,
        isig: 0o1,
        iexten: 0o100000,
        csize: 0o60,
        parenb: 0o400,
        cs8: 0o60,
    }
}

#[test]
fn raw_mode_clears_what_cfmakeraw_clears() {
    let cooked = TermSettings {
        input: 0o2400 | 0o20000,
        output: 0o1 | 0o4,
        local: 0o1 | 0o2 | 0o10 | 0o100000 | 0o4000,
        control: 0o400 | 0o20 | 0o200,
        min_read: 0,
        read_timeout: 5,
    };
    let raw = raw_mode_settings(cooked, linux_bits());
    assert_eq!(
        raw,
        TermSettings {
            input: 0o20000,
            output: 0o4,
            local: 0o4000,
            control: 0o60 | 0o200,
            min_read: 1,
            read_timeout: 0,
        }
    );
    assert_eq!(raw_mode_settings(raw, linux_bits()), raw);
}
