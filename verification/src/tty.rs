//! Raw mode of a terminal: how its settings change when the program takes
//! over input, as cfmakeraw describes it, with output processing other than
//! OPOST left alone so that hard tabs keep working.
use vstd::prelude::*;

verus! {

/// The settings of a terminal that raw mode changes: its four flag words
/// and the two read controls.
#[derive(Debug, Clone, Copy, PartialEq, Eq)]
pub struct TermSettings {
    /// Input flags.
    pub input: u64,
    /// Output flags.
    pub output: u64,
    /// Local flags.
    pub local: u64,
    /// Control flags.
    pub control: u64,
    /// The fewest bytes a read waits for.
    pub min_read: u8,
    /// How long a read waits, in tenths of a second.
    pub read_timeout: u8,
}

/// The flag bits that raw mode touches, as the platform defines them.
#[derive(Debug, Clone, Copy, PartialEq, Eq)]
pub struct RawModeBits {
    /// Ignore break.
    pub ignbrk: u64,
    /// Break raises an interrupt.
    pub brkint: u64,
    /// Mark parity errors.
    pub parmrk: u64,
    /// Strip the eighth bit.
    pub istrip: u64,
    /// Turn a new line into a carriage return.
    pub inlcr: u64,
    /// Ignore carriage returns.
    pub igncr: u64,
    /// Turn a carriage return into a new line.
    pub icrnl: u64,
    /// Flow control on output.
    pub ixon: u64,
    /// Output processing.
    pub opost: u64,
    /// Echo input.
    pub echo: u64,
    /// Echo new lines.
    pub echonl: u64,
    /// Canonical (line by line) input.
    pub icanon: u64,
    /// Signals from interrupt, quit and suspend keys.
    pub isig: u64,
    /// Extended input processing.
    pub iexten: u64,
    /// Character size mask.
    pub csize: u64,
    /// Parity.
    pub parenb: u64,
    /// Eight-bit characters.
    pub cs8: u64,
}

/// The input bits that raw mode clears.
pub open spec fn raw_input_cleared(b: RawModeBits) -> u64 {
    b.ignbrk | b.brkint | b.parmrk | b.istrip | b.inlcr | b.igncr | b.icrnl | b.ixon
}

/// The local bits that raw mode clears.
pub open spec fn raw_local_cleared(b: RawModeBits) -> u64 {
    b.echo | b.echonl | b.icanon | b.isig | b.iexten
}

/// The settings in raw mode: the input, local and parity bits above
/// cleared, OPOST cleared, characters of eight bits, and reads that return
/// as soon as one byte is there.
pub open spec fn raw_settings_spec(s: TermSettings, b: RawModeBits) -> TermSettings {
    TermSettings {
        input: s.input & !raw_input_cleared(b),
        output: s.output & !b.opost,
        local: s.local & !raw_local_cleared(b),
        control: (s.control & !(b.csize | b.parenb)) | b.cs8,
        min_read: 1,
        read_timeout: 0,
    }
}

/// Returns the settings of a terminal in raw mode, given its settings and
/// the platform's flag bits.
pub fn raw_mode_settings(s: TermSettings, b: RawModeBits) -> (r: TermSettings)
    ensures
        r == raw_settings_spec(s, b),
{
    let input_cleared = b.ignbrk | b.brkint | b.parmrk | b.istrip | b.inlcr | b.igncr | b.icrnl
        | b.ixon;
    let local_cleared = b.echo | b.echonl | b.icanon | b.isig | b.iexten;
    TermSettings {
        input: s.input & !input_cleared,
        output: s.output & !b.opost,
        local: s.local & !local_cleared,
        control: (s.control & !(b.csize | b.parenb)) | b.cs8,
        min_read: 1,
        read_timeout: 0,
    }
}

/// Raw mode turns echo, line editing and signal keys off and asks for
/// eight-bit characters; a terminal already in raw mode stays as it is.
pub proof fn law_raw_mode_settles(s: TermSettings, b: RawModeBits)
    ensures
        raw_settings_spec(s, b).local & b.echo == 0,
        raw_settings_spec(s, b).local & b.icanon == 0,
        raw_settings_spec(s, b).local & b.isig == 0,
        raw_settings_spec(s, b).control & b.cs8 == b.cs8,
        raw_settings_spec(raw_settings_spec(s, b), b) == raw_settings_spec(s, b),
{
    let ic = raw_input_cleared(b);
    let lc = raw_local_cleared(b);
    let k = b.csize | b.parenb;
    let (i, o, l, c, op, e, ca, sg, ie, en, c8) = (
        s.input,
        s.output,
        s.local,
        s.control,
        b.opost,
        b.echo,
        b.icanon,
        b.isig,
        b.iexten,
        b.echonl,
        b.cs8,
    );
    assert(lc == e | en | ca | sg | ie);
    assert((l & !(e | en | ca | sg | ie)) & e == 0) by (bit_vector);
    assert((l & !(e | en | ca | sg | ie)) & ca == 0) by (bit_vector);
    assert((l & !(e | en | ca | sg | ie)) & sg == 0) by (bit_vector);
    assert(((c & !k) | c8) & c8 == c8) by (bit_vector);
    assert((i & !ic) & !ic == i & !ic) by (bit_vector);
    assert((o & !op) & !op == o & !op) by (bit_vector);
    assert((l & !lc) & !lc == l & !lc) by (bit_vector);
    assert((((c & !k) | c8) & !k) | c8 == (c & !k) | c8) by (bit_vector);
}

} // verus!
