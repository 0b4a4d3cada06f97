//! Gateway concentrator configuration: the channels of an SX1301/SX1302
//! configuration, each channel's derived center frequency, and a printable
//! per-channel summary.
//!
//! A channel's center frequency is the selected radio's center frequency plus
//! the channel's IF offset. Frequencies are held in Hz as signed integers; a
//! well-formed configuration keeps every radio frequency and IF offset within
//! one GHz in magnitude, so the sums stay within machine bounds.

use vstd::prelude::*;
use vstd::string::StrSliceExecFns;
use vstd::string::StringExecFns;

use crate::decimal::scaled_chars;
use crate::decimal::scaled_string;

verus! {

/// One of the two radios of the concentrator: its center frequency (Hz) and,
/// if given, the transmit range it supports.
#[derive(Debug, Clone)]
pub struct Radio {
    pub freq: isize,
    pub tx_freq_min: Option<isize>,
    pub tx_freq_max: Option<isize>,
}

impl Radio {
    /// The radio's center frequency is within one GHz in magnitude.
    pub open spec fn wf(self) -> bool {
        -1_000_000_000 <= self.freq <= 1_000_000_000
    }
}

/// The settings of an enabled multi-SF channel: its IF offset (Hz) relative
/// to the selected radio's center frequency.
#[derive(Debug, Clone)]
pub struct ChannelEnabled {
    pub if_offset: isize,
    pub radio: usize,
}

impl ChannelEnabled {
    /// The IF offset is within one GHz in magnitude and the radio selector
    /// names one of the two radios.
    pub open spec fn wf(self) -> bool {
        &&& -1_000_000_000 <= self.if_offset <= 1_000_000_000
        &&& self.radio <= 1
    }
}

/// A multi-SF LoRa channel: enabled or not, with its settings when enabled.
#[derive(Debug, Clone)]
pub struct Channel {
    pub enable: bool,
    pub config: Option<ChannelEnabled>,
}

impl Channel {
    /// An enabled channel carries well-formed settings.
    pub open spec fn wf(self) -> bool {
        self.enable ==> self.config is Some && self.config->Some_0.wf()
    }

    /// The channel's center frequency: the selected radio's frequency plus
    /// the IF offset; none when the channel is disabled.
    pub open spec fn spec_frequency(self, radio_0: Radio, radio_1: Radio) -> Option<isize> {
        if !self.enable {
            None
        } else {
            match self.config {
                Some(c) => Some(
                    (if c.radio == 0 {
                        radio_0.freq + c.if_offset
                    } else {
                        radio_1.freq + c.if_offset
                    }) as isize,
                ),
                None => None,
            }
        }
    }

    /// The channel's printable summary: its frequency in MHz, or "Disabled".
    pub open spec fn spec_summary(self, radio_0: Radio, radio_1: Radio) -> Seq<char> {
        match self.spec_frequency(radio_0, radio_1) {
            Some(f) => scaled_chars(f as int, 6) + " MHz"@,
            None => "Disabled"@,
        }
    }

    /// Returns the channel's center frequency in Hz, or none when disabled.
    pub fn frequency(&self, radio_0: &Radio, radio_1: &Radio) -> (r: Option<isize>)
        requires
            self.wf(),
            radio_0.wf(),
            radio_1.wf(),
        ensures
            r == self.spec_frequency(*radio_0, *radio_1),
    {
        if !self.enable {
            return None;
        }
        match &self.config {
            Some(c) => Some(
                if c.radio == 0 {
                    radio_0.freq + c.if_offset
                } else {
                    radio_1.freq + c.if_offset
                },
            ),
            None => vstd::pervasive::unreached(),
        }
    }

    /// Renders the channel's frequency in MHz, or "Disabled".
    pub fn summary(&self, radio_0: &Radio, radio_1: &Radio) -> (r: String)
        requires
            self.wf(),
            radio_0.wf(),
            radio_1.wf(),
        ensures
            r@ == self.spec_summary(*radio_0, *radio_1),
    {
        match self.frequency(radio_0, radio_1) {
            Some(f) => {
                let mut s = scaled_string(f as i64, 6);
                s.append(" MHz");
                s
            },
            None => String::from_str("Disabled"),
        }
    }
}

/// The settings of an enabled wide-bandwidth or FSK channel: bandwidth in Hz
/// beside the IF offset and radio selector.
#[derive(Debug, Clone)]
pub struct LoraStdEnabled {
    pub bandwidth: usize,
    pub if_offset: isize,
    pub radio: usize,
}

impl LoraStdEnabled {
    /// Offset and bandwidth are within one GHz, and the radio selector names
    /// one of the two radios.
    pub open spec fn wf(self) -> bool {
        &&& -1_000_000_000 <= self.if_offset <= 1_000_000_000
        &&& self.bandwidth <= 1_000_000_000
        &&& self.radio <= 1
    }
}

/// The wide-bandwidth ("Fat LoRa") channel.
#[derive(Debug, Clone)]
pub struct LoraStd {
    pub enable: bool,
    pub config: Option<LoraStdEnabled>,
}

/// The FSK channel; configured with the same settings as the wide-bandwidth
/// channel.
#[derive(Debug, Clone)]
pub struct ChannelFsk {
    pub enable: bool,
    pub config: Option<LoraStdEnabled>,
}

/// The frequency of a wide-bandwidth or FSK channel.
pub open spec fn spec_std_frequency(
    enable: bool,
    config: Option<LoraStdEnabled>,
    radio_0: Radio,
    radio_1: Radio,
) -> Option<isize> {
    if !enable {
        None
    } else {
        match config {
            Some(c) => Some(
                (if c.radio == 0 {
                    radio_0.freq + c.if_offset
                } else {
                    radio_1.freq + c.if_offset
                }) as isize,
            ),
            None => None,
        }
    }
}

/// The bandwidth of a wide-bandwidth or FSK channel.
pub open spec fn spec_std_bandwidth(enable: bool, config: Option<LoraStdEnabled>) -> Option<
    usize,
> {
    if !enable {
        None
    } else {
        match config {
            Some(c) => Some(c.bandwidth),
            None => None,
        }
    }
}

/// The printable summary of a wide-bandwidth or FSK channel: frequency in MHz
/// and bandwidth in kHz, or "Disabled".
pub open spec fn spec_std_summary(
    enable: bool,
    config: Option<LoraStdEnabled>,
    radio_0: Radio,
    radio_1: Radio,
) -> Seq<char> {
    match (
        spec_std_frequency(enable, config, radio_0, radio_1),
        spec_std_bandwidth(enable, config),
    ) {
        (Some(f), Some(b)) => scaled_chars(f as int, 6) + " MHz, BW "@ + scaled_chars(b as int, 3)
            + " KHz"@,
        _ => "Disabled"@,
    }
}

fn std_frequency(
    enable: bool,
    config: &Option<LoraStdEnabled>,
    radio_0: &Radio,
    radio_1: &Radio,
) -> (r: Option<isize>)
    requires
        enable ==> *config is Some && config->Some_0.wf(),
        radio_0.wf(),
        radio_1.wf(),
    ensures
        r == spec_std_frequency(enable, *config, *radio_0, *radio_1),
{
    if !enable {
        return None;
    }
    match config {
        Some(c) => Some(
            if c.radio == 0 {
                radio_0.freq + c.if_offset
            } else {
                radio_1.freq + c.if_offset
            },
        ),
        None => vstd::pervasive::unreached(),
    }
}

fn std_bandwidth(enable: bool, config: &Option<LoraStdEnabled>) -> (r: Option<usize>)
    requires
        enable ==> *config is Some,
    ensures
        r == spec_std_bandwidth(enable, *config),
{
    if !enable {
        return None;
    }
    match config {
        Some(c) => Some(c.bandwidth),
        None => vstd::pervasive::unreached(),
    }
}

fn std_summary(
    enable: bool,
    config: &Option<LoraStdEnabled>,
    radio_0: &Radio,
    radio_1: &Radio,
) -> (r: String)
    requires
        enable ==> *config is Some && config->Some_0.wf(),
        radio_0.wf(),
        radio_1.wf(),
    ensures
        r@ == spec_std_summary(enable, *config, *radio_0, *radio_1),
{
    let freq = std_frequency(enable, config, radio_0, radio_1);
    let bw = std_bandwidth(enable, config);
    match (freq, bw) {
        (Some(f), Some(b)) => {
            let mut s = scaled_string(f as i64, 6);
            s.append(" MHz, BW ");
            let bs = scaled_string(b as i64, 3);
            s.append(bs.as_str());
            s.append(" KHz");
            proof {
                assert(s@ =~= spec_std_summary(enable, *config, *radio_0, *radio_1));
            }
            s
        },
        _ => String::from_str("Disabled"),
    }
}

impl LoraStd {
    /// An enabled channel carries well-formed settings.
    pub open spec fn wf(self) -> bool {
        self.enable ==> self.config is Some && self.config->Some_0.wf()
    }

    /// The channel's center frequency.
    pub open spec fn spec_frequency(self, radio_0: Radio, radio_1: Radio) -> Option<isize> {
        spec_std_frequency(self.enable, self.config, radio_0, radio_1)
    }

    /// The channel's bandwidth in Hz.
    pub open spec fn spec_bandwidth(self) -> Option<usize> {
        spec_std_bandwidth(self.enable, self.config)
    }

    /// The channel's printable summary.
    pub open spec fn spec_summary(self, radio_0: Radio, radio_1: Radio) -> Seq<char> {
        spec_std_summary(self.enable, self.config, radio_0, radio_1)
    }

    /// Returns the channel's center frequency in Hz, or none when disabled.
    pub fn frequency(&self, radio_0: &Radio, radio_1: &Radio) -> (r: Option<isize>)
        requires
            self.wf(),
            radio_0.wf(),
            radio_1.wf(),
        ensures
            r == self.spec_frequency(*radio_0, *radio_1),
    {
        std_frequency(self.enable, &self.config, radio_0, radio_1)
    }

    /// Returns the channel's bandwidth in Hz, or none when disabled.
    pub fn bandwidth(&self) -> (r: Option<usize>)
        requires
            self.wf(),
        ensures
            r == self.spec_bandwidth(),
    {
        std_bandwidth(self.enable, &self.config)
    }

    /// Renders the channel's frequency and bandwidth, or "Disabled".
    pub fn summary(&self, radio_0: &Radio, radio_1: &Radio) -> (r: String)
        requires
            self.wf(),
            radio_0.wf(),
            radio_1.wf(),
        ensures
            r@ == self.spec_summary(*radio_0, *radio_1),
    {
        std_summary(self.enable, &self.config, radio_0, radio_1)
    }
}

impl ChannelFsk {
    /// An enabled channel carries well-formed settings.
    pub open spec fn wf(self) -> bool {
        self.enable ==> self.config is Some && self.config->Some_0.wf()
    }

    /// The channel's center frequency.
    pub open spec fn spec_frequency(self, radio_0: Radio, radio_1: Radio) -> Option<isize> {
        spec_std_frequency(self.enable, self.config, radio_0, radio_1)
    }

    /// The channel's bandwidth in Hz.
    pub open spec fn spec_bandwidth(self) -> Option<usize> {
        spec_std_bandwidth(self.enable, self.config)
    }

    /// The channel's printable summary.
    pub open spec fn spec_summary(self, radio_0: Radio, radio_1: Radio) -> Seq<char> {
        spec_std_summary(self.enable, self.config, radio_0, radio_1)
    }

    /// Returns the channel's center frequency in Hz, or none when disabled.
    pub fn frequency(&self, radio_0: &Radio, radio_1: &Radio) -> (r: Option<isize>)
        requires
            self.wf(),
            radio_0.wf(),
            radio_1.wf(),
        ensures
            r == self.spec_frequency(*radio_0, *radio_1),
    {
        std_frequency(self.enable, &self.config, radio_0, radio_1)
    }

    /// Returns the channel's bandwidth in Hz, or none when disabled.
    pub fn bandwidth(&self) -> (r: Option<usize>)
        requires
            self.wf(),
        ensures
            r == self.spec_bandwidth(),
    {
        std_bandwidth(self.enable, &self.config)
    }

    /// Renders the channel's frequency and bandwidth, or "Disabled".
    pub fn summary(&self, radio_0: &Radio, radio_1: &Radio) -> (r: String)
        requires
            self.wf(),
            radio_0.wf(),
            radio_1.wf(),
        ensures
            r@ == self.spec_summary(*radio_0, *radio_1),
    {
        std_summary(self.enable, &self.config, radio_0, radio_1)
    }
}

/// The channels of an SX1301/SX1302 concentrator: two radios, eight multi-SF
/// channels, the wide-bandwidth channel and the FSK channel.
#[derive(Debug, Clone)]
#[allow(non_snake_case)]
pub struct Sx130xConfData {
    pub radio_0: Radio,
    pub radio_1: Radio,
    pub chan_multiSF_0: Channel,
    pub chan_multiSF_1: Channel,
    pub chan_multiSF_2: Channel,
    pub chan_multiSF_3: Channel,
    pub chan_multiSF_4: Channel,
    pub chan_multiSF_5: Channel,
    pub chan_multiSF_6: Channel,
    pub chan_multiSF_7: Channel,
    pub chan_Lora_std: LoraStd,
    pub chan_FSK: ChannelFsk,
}

impl Sx130xConfData {
    /// Both radios and every channel are well-formed.
    pub open spec fn wf(self) -> bool {
        &&& self.radio_0.wf()
        &&& self.radio_1.wf()
        &&& self.chan_multiSF_0.wf()
        &&& self.chan_multiSF_1.wf()
        &&& self.chan_multiSF_2.wf()
        &&& self.chan_multiSF_3.wf()
        &&& self.chan_multiSF_4.wf()
        &&& self.chan_multiSF_5.wf()
        &&& self.chan_multiSF_6.wf()
        &&& self.chan_multiSF_7.wf()
        &&& self.chan_Lora_std.wf()
        &&& self.chan_FSK.wf()
    }

    /// The frequency of the channel at `channel`: indices 0 through 7 are the
    /// multi-SF channels, 8 the wide-bandwidth channel, 9 the FSK channel.
    pub open spec fn spec_frequency_at(self, channel: int) -> Option<isize> {
        if channel == 0 {
            self.chan_multiSF_0.spec_frequency(self.radio_0, self.radio_1)
        } else if channel == 1 {
            self.chan_multiSF_1.spec_frequency(self.radio_0, self.radio_1)
        } else if channel == 2 {
            self.chan_multiSF_2.spec_frequency(self.radio_0, self.radio_1)
        } else if channel == 3 {
            self.chan_multiSF_3.spec_frequency(self.radio_0, self.radio_1)
        } else if channel == 4 {
            self.chan_multiSF_4.spec_frequency(self.radio_0, self.radio_1)
        } else if channel == 5 {
            self.chan_multiSF_5.spec_frequency(self.radio_0, self.radio_1)
        } else if channel == 6 {
            self.chan_multiSF_6.spec_frequency(self.radio_0, self.radio_1)
        } else if channel == 7 {
            self.chan_multiSF_7.spec_frequency(self.radio_0, self.radio_1)
        } else if channel == 8 {
            self.chan_Lora_std.spec_frequency(self.radio_0, self.radio_1)
        } else if channel == 9 {
            self.chan_FSK.spec_frequency(self.radio_0, self.radio_1)
        } else {
            None
        }
    }

    /// Every multi-SF channel that derives a frequency derives one within
    /// radio 0's transmit range.
    pub open spec fn spec_valid_tx(self) -> bool {
        let lb = self.radio_0.tx_freq_min->Some_0;
        let ub = self.radio_0.tx_freq_max->Some_0;
        &&& (match self.chan_multiSF_0.spec_frequency(self.radio_0, self.radio_1) {
            Some(f) => lb <= f <= ub,
            None => true,
        })
        &&& (match self.chan_multiSF_1.spec_frequency(self.radio_0, self.radio_1) {
            Some(f) => lb <= f <= ub,
            None => true,
        })
        &&& (match self.chan_multiSF_2.spec_frequency(self.radio_0, self.radio_1) {
            Some(f) => lb <= f <= ub,
            None => true,
        })
        &&& (match self.chan_multiSF_3.spec_frequency(self.radio_0, self.radio_1) {
            Some(f) => lb <= f <= ub,
            None => true,
        })
        &&& (match self.chan_multiSF_4.spec_frequency(self.radio_0, self.radio_1) {
            Some(f) => lb <= f <= ub,
            None => true,
        })
        &&& (match self.chan_multiSF_5.spec_frequency(self.radio_0, self.radio_1) {
            Some(f) => lb <= f <= ub,
            None => true,
        })
        &&& (match self.chan_multiSF_6.spec_frequency(self.radio_0, self.radio_1) {
            Some(f) => lb <= f <= ub,
            None => true,
        })
        &&& (match self.chan_multiSF_7.spec_frequency(self.radio_0, self.radio_1) {
            Some(f) => lb <= f <= ub,
            None => true,
        })
    }

    /// The full printable summary: one line per channel, and a warning when
    /// some derived frequency falls outside radio 0's transmit range.
    pub open spec fn spec_summary(self) -> Seq<char> {
        "1        "@ + self.chan_multiSF_0.spec_summary(self.radio_0, self.radio_1) + "\n2        "@
            + self.chan_multiSF_1.spec_summary(self.radio_0, self.radio_1) + "\n3        "@
            + self.chan_multiSF_2.spec_summary(self.radio_0, self.radio_1) + "\n4        "@
            + self.chan_multiSF_3.spec_summary(self.radio_0, self.radio_1) + "\n5        "@
            + self.chan_multiSF_4.spec_summary(self.radio_0, self.radio_1) + "\n6        "@
            + self.chan_multiSF_5.spec_summary(self.radio_0, self.radio_1) + "\n7        "@
            + self.chan_multiSF_6.spec_summary(self.radio_0, self.radio_1) + "\n8        "@
            + self.chan_multiSF_7.spec_summary(self.radio_0, self.radio_1) + "\nFat LoRa "@
            + self.chan_Lora_std.spec_summary(self.radio_0, self.radio_1) + "\nFSK      "@
            + self.chan_FSK.spec_summary(self.radio_0, self.radio_1) + (if !self.spec_valid_tx() {
            "\nWARNING: Cannot transmit on all uplink frequencies for POC!"@
        } else {
            Seq::<char>::empty()
        })
    }

    /// Returns the frequency of the channel at `channel`, or none when the
    /// channel is disabled or the index names no channel.
    pub fn frequency(&self, channel: usize) -> (r: Option<isize>)
        requires
            self.wf(),
        ensures
            r == self.spec_frequency_at(channel as int),
    {
        match channel {
            0 => self.chan_multiSF_0.frequency(&self.radio_0, &self.radio_1),
            1 => self.chan_multiSF_1.frequency(&self.radio_0, &self.radio_1),
            2 => self.chan_multiSF_2.frequency(&self.radio_0, &self.radio_1),
            3 => self.chan_multiSF_3.frequency(&self.radio_0, &self.radio_1),
            4 => self.chan_multiSF_4.frequency(&self.radio_0, &self.radio_1),
            5 => self.chan_multiSF_5.frequency(&self.radio_0, &self.radio_1),
            6 => self.chan_multiSF_6.frequency(&self.radio_0, &self.radio_1),
            7 => self.chan_multiSF_7.frequency(&self.radio_0, &self.radio_1),
            8 => self.chan_Lora_std.frequency(&self.radio_0, &self.radio_1),
            9 => self.chan_FSK.frequency(&self.radio_0, &self.radio_1),
            _ => None,
        }
    }

    /// Renders the full summary. Requires radio 0 to carry its transmit
    /// range, as the warning check reads it.
    pub fn summary(&self) -> (r: String)
        requires
            self.wf(),
            self.radio_0.tx_freq_min is Some,
            self.radio_0.tx_freq_max is Some,
        ensures
            r@ == self.spec_summary(),
    {
        let (lb, ub) = match (&self.radio_0.tx_freq_min, &self.radio_0.tx_freq_max) {
            (Some(lb), Some(ub)) => (*lb, *ub),
            _ => vstd::pervasive::unreached(),
        };
        let mut valid_tx = true;
        if let Some(f) = self.chan_multiSF_0.frequency(&self.radio_0, &self.radio_1) {
            if f > ub || f < lb {
                valid_tx = false;
            }
        }
        if let Some(f) = self.chan_multiSF_1.frequency(&self.radio_0, &self.radio_1) {
            if f > ub || f < lb {
                valid_tx = false;
            }
        }
        if let Some(f) = self.chan_multiSF_2.frequency(&self.radio_0, &self.radio_1) {
            if f > ub || f < lb {
                valid_tx = false;
            }
        }
        if let Some(f) = self.chan_multiSF_3.frequency(&self.radio_0, &self.radio_1) {
            if f > ub || f < lb {
                valid_tx = false;
            }
        }
        if let Some(f) = self.chan_multiSF_4.frequency(&self.radio_0, &self.radio_1) {
            if f > ub || f < lb {
                valid_tx = false;
            }
        }
        if let Some(f) = self.chan_multiSF_5.frequency(&self.radio_0, &self.radio_1) {
            if f > ub || f < lb {
                valid_tx = false;
            }
        }
        if let Some(f) = self.chan_multiSF_6.frequency(&self.radio_0, &self.radio_1) {
            if f > ub || f < lb {
                valid_tx = false;
            }
        }
        if let Some(f) = self.chan_multiSF_7.frequency(&self.radio_0, &self.radio_1) {
            if f > ub || f < lb {
                valid_tx = false;
            }
        }
        assert(valid_tx == self.spec_valid_tx());

        let mut s = String::from_str("1        ");
        s.append(self.chan_multiSF_0.summary(&self.radio_0, &self.radio_1).as_str());
        s.append("\n2        ");
        s.append(self.chan_multiSF_1.summary(&self.radio_0, &self.radio_1).as_str());
        s.append("\n3        ");
        s.append(self.chan_multiSF_2.summary(&self.radio_0, &self.radio_1).as_str());
        s.append("\n4        ");
        s.append(self.chan_multiSF_3.summary(&self.radio_0, &self.radio_1).as_str());
        s.append("\n5        ");
        s.append(self.chan_multiSF_4.summary(&self.radio_0, &self.radio_1).as_str());
        s.append("\n6        ");
        s.append(self.chan_multiSF_5.summary(&self.radio_0, &self.radio_1).as_str());
        s.append("\n7        ");
        s.append(self.chan_multiSF_6.summary(&self.radio_0, &self.radio_1).as_str());
        s.append("\n8        ");
        s.append(self.chan_multiSF_7.summary(&self.radio_0, &self.radio_1).as_str());
        s.append("\nFat LoRa ");
        s.append(self.chan_Lora_std.summary(&self.radio_0, &self.radio_1).as_str());
        s.append("\nFSK      ");
        s.append(self.chan_FSK.summary(&self.radio_0, &self.radio_1).as_str());
        if !valid_tx {
            s.append("\nWARNING: Cannot transmit on all uplink frequencies for POC!");
        }
        proof {
            assert(s@ =~= self.spec_summary());
        }
        s
    }
}

/// Whether `c` has Unicode's White_Space property, the set that
/// char::is_whitespace recognises.
pub open spec fn is_space_char(c: char) -> bool {
    ||| c == ' '
    ||| c == '\t'
    ||| c == '\n'
    ||| c == '\u{000B}'
    ||| c == '\u{000C}'
    ||| c == '\r'
    ||| c == '\u{0085}'
    ||| c == '\u{00A0}'
    ||| c == '\u{1680}'
    ||| c == '\u{2000}'
    ||| c == '\u{2001}'
    ||| c == '\u{2002}'
    ||| c == '\u{2003}'
    ||| c == '\u{2004}'
    ||| c == '\u{2005}'
    ||| c == '\u{2006}'
    ||| c == '\u{2007}'
    ||| c == '\u{2008}'
    ||| c == '\u{2009}'
    ||| c == '\u{200A}'
    ||| c == '\u{2028}'
    ||| c == '\u{2029}'
    ||| c == '\u{202F}'
    ||| c == '\u{205F}'
    ||| c == '\u{3000}'
}

fn is_space(c: char) -> (b: bool)
    ensures
        b == is_space_char(c),
{
    c == ' ' || c == '\t' || c == '\n' || c == '\u{000B}' || c == '\u{000C}' || c == '\r' || c
        == '\u{0085}' || c == '\u{00A0}' || c == '\u{1680}' || c == '\u{2000}' || c == '\u{2001}'
        || c == '\u{2002}' || c == '\u{2003}' || c == '\u{2004}' || c == '\u{2005}' || c
        == '\u{2006}' || c == '\u{2007}' || c == '\u{2008}' || c == '\u{2009}' || c == '\u{200A}'
        || c == '\u{2028}' || c == '\u{2029}' || c == '\u{202F}' || c == '\u{205F}' || c
        == '\u{3000}'
}

/// What remains of `s` from position `i` on after comment stripping, given
/// whether a line comment, a block comment or a `${...}` variable is open.
///
/// Mirrors one scan step per recursion: `${` opens a variable, which is
/// replaced by an empty string literal at its closing brace; `/*` ... `*/`
/// and `//` ... end-of-line are dropped; the character before a closing brace
/// is kept only when it is no whitespace; everything inside an open comment
/// or variable is dropped. None marks the inputs the scan rejects: comment
/// openers inside a comment, a block-comment close with no open, or a block
/// comment left open at the end.
pub open spec fn decomment_rec(s: Seq<char>, i: int, line: bool, block: bool, var: bool) -> Option<
    Seq<char>,
>
    decreases s.len() - i,
{
    if i >= s.len() {
        if block {
            None
        } else {
            Some(Seq::empty())
        }
    } else {
        let ch = s[i];
        let has_peek = i + 1 < s.len();
        if ch == '$' && has_peek && s[i + 1] == '{' {
            if line || block {
                None
            } else {
                decomment_rec(s, i + 2, line, block, true)
            }
        } else if has_peek && s[i + 1] == '}' {
            if var {
                if line || block {
                    None
                } else {
                    match decomment_rec(s, i + 2, line, block, false) {
                        Some(rest) => Some(seq!['"', '"'] + rest),
                        None => None,
                    }
                }
            } else if !block && !line && !is_space_char(ch) {
                match decomment_rec(s, i + 1, line, block, var) {
                    Some(rest) => Some(seq![ch] + rest),
                    None => None,
                }
            } else {
                decomment_rec(s, i + 1, line, block, var)
            }
        } else if ch == '/' && has_peek && s[i + 1] == '*' {
            if line || block {
                None
            } else {
                decomment_rec(s, i + 2, line, true, var)
            }
        } else if ch == '*' && has_peek && s[i + 1] == '/' {
            if !block {
                None
            } else {
                decomment_rec(s, i + 2, line, false, var)
            }
        } else if ch == '/' && has_peek && s[i + 1] == '/' {
            if line || block {
                None
            } else {
                decomment_rec(s, i + 2, true, block, var)
            }
        } else if ch == '\r' && has_peek && s[i + 1] == '\n' && line {
            decomment_rec(s, i + 2, false, block, var)
        } else if ch == '\n' && line {
            decomment_rec(s, i + 1, false, block, var)
        } else if block || line || var {
            decomment_rec(s, i + 1, line, block, var)
        } else {
            match decomment_rec(s, i + 1, line, block, var) {
                Some(rest) => Some(seq![ch] + rest),
                None => None,
            }
        }
    }
}

/// The comment-stripped text of `s`, or None where the scan rejects `s`.
pub open spec fn spec_decomment(s: Seq<char>) -> Option<Seq<char>> {
    decomment_rec(s, 0, false, false, false)
}

/// Relies on str::chars: the iterator yields exactly the string's
/// characters, in order.
#[verifier::external_body]
fn chars_of(s: &str) -> (r: Vec<char>)
    ensures
        r@ == s@,
{
    s.chars().collect()
}

fn push_char(out: &mut Vec<char>, c: char)
    ensures
        final (out)@ == old(out)@ + seq![c],
{
    out.push(c);
    proof {
        assert(out@ =~= old(out)@ + seq![c]);
    }
}

proof fn lemma_concat_assoc(a: Seq<char>, b: Seq<char>, c: Seq<char>)
    ensures
        (a + b) + c == a + (b + c),
{
    assert((a + b) + c =~= a + (b + c));
}

/// Removes both c-style block comments and c++-style line comments from a
/// str, and replaces each `${...}` variable by an empty string literal; or
/// None where the input nests a comment opener inside a comment, closes a
/// block comment that is not open, or leaves one open at the end.
pub fn try_decomment(src: &str) -> (r: Option<String>)
    ensures
        (r is Some) == (spec_decomment(src@) is Some),
        r is Some ==> r->Some_0@ == spec_decomment(src@)->Some_0,
{
    let chars = chars_of(src);
    let n = chars.len();
    let mut i: usize = 0;
    let mut in_line_comment = false;
    let mut in_block_comment = false;
    let mut variable = false;
    let mut out: Vec<char> = Vec::new();
    while i < n
        invariant
            chars@ == src@,
            n == chars.len(),
            i <= n,
            spec_decomment(src@) == (match decomment_rec(
                src@,
                i as int,
                in_line_comment,
                in_block_comment,
                variable,
            ) {
                Some(rest) => Some(out@ + rest),
                None => None::<Seq<char>>,
            }),
        decreases n - i,
    {
        let ch = chars[i];
        let ghost out0 = out@;
        if ch == '$' && i + 1 < n && chars[i + 1] == '{' {
            if in_line_comment || in_block_comment {
                return None;
            }
            i = i + 2;
            variable = true;
        } else if i + 1 < n && chars[i + 1] == '}' {
            if variable {
                if in_line_comment || in_block_comment {
                    return None;
                }
                let ghost rest_opt = decomment_rec(
                    src@,
                    i as int + 2,
                    in_line_comment,
                    in_block_comment,
                    false,
                );
                push_char(&mut out, '"');
                push_char(&mut out, '"');
                i = i + 2;
                variable = false;
                proof {
                    if rest_opt is Some {
                        let rest = rest_opt->Some_0;
                        assert(out0 + seq!['"', '"'] =~= (out0 + seq!['"']) + seq!['"']);
                        lemma_concat_assoc(out0, seq!['"', '"'], rest);
                    }
                }
            } else if !in_block_comment && !in_line_comment && !is_space(ch) {
                let ghost rest_opt = decomment_rec(
                    src@,
                    i as int + 1,
                    in_line_comment,
                    in_block_comment,
                    variable,
                );
                push_char(&mut out, ch);
                i = i + 1;
                proof {
                    if rest_opt is Some {
                        lemma_concat_assoc(out0, seq![ch], rest_opt->Some_0);
                    }
                }
            } else {
                i = i + 1;
            }
        } else if ch == '/' && i + 1 < n && chars[i + 1] == '*' {
            if in_line_comment || in_block_comment {
                return None;
            }
            i = i + 2;
            in_block_comment = true;
        } else if ch == '*' && i + 1 < n && chars[i + 1] == '/' {
            if !in_block_comment {
                return None;
            }
            i = i + 2;
            in_block_comment = false;
        } else if ch == '/' && i + 1 < n && chars[i + 1] == '/' {
            if in_line_comment || in_block_comment {
                return None;
            }
            i = i + 2;
            in_line_comment = true;
        } else if ch == '\r' && i + 1 < n && chars[i + 1] == '\n' && in_line_comment {
            i = i + 2;
            in_line_comment = false;
        } else if ch == '\n' && in_line_comment {
            i = i + 1;
            in_line_comment = false;
        } else if in_block_comment || in_line_comment || variable {
            i = i + 1;
        } else {
            let ghost rest_opt = decomment_rec(
                src@,
                i as int + 1,
                in_line_comment,
                in_block_comment,
                variable,
            );
            push_char(&mut out, ch);
            i = i + 1;
            proof {
                if rest_opt is Some {
                    lemma_concat_assoc(out0, seq![ch], rest_opt->Some_0);
                }
            }
        }
    }
    if in_block_comment {
        return None;
    }
    proof {
        assert(out@ + Seq::<char>::empty() =~= out@);
    }
    Some(crate::decimal::chars_to_string(out))
}

/// Removes both c-style block comments and c++-style line comments from a
/// str, and replaces each `${...}` variable by an empty string literal. The
/// input must be one the scan accepts; try_decomment tells the two apart.
pub fn decomment(src: &str) -> (r: String)
    requires
        spec_decomment(src@) is Some,
    ensures
        r@ == spec_decomment(src@)->Some_0,
{
    match try_decomment(src) {
        Some(s) => s,
        None => vstd::pervasive::unreached(),
    }
}

/// The two accepted spellings of the configuration's top-level key.
#[derive(Debug, Clone)]
#[allow(non_camel_case_types)]
pub enum Sx130xConf {
    SX130x_conf(Sx130xConfData),
    SX1301_conf(Sx130xConfData),
}

/// A parsed gateway configuration, under either top-level key.
#[derive(Debug, Clone)]
pub struct Config {
    pub config: Sx130xConf,
}

impl Config {
    /// The configuration's channel data, whichever key carried it.
    pub open spec fn data(self) -> Sx130xConfData {
        match self.config {
            Sx130xConf::SX130x_conf(d) => d,
            Sx130xConf::SX1301_conf(d) => d,
        }
    }

    /// The channel data is well-formed.
    pub open spec fn wf(self) -> bool {
        self.data().wf()
    }

    /// Renders the configuration's summary.
    pub fn summary(&self) -> (r: String)
        requires
            self.wf(),
            self.data().radio_0.tx_freq_min is Some,
            self.data().radio_0.tx_freq_max is Some,
        ensures
            r@ == self.data().spec_summary(),
    {
        match &self.config {
            Sx130xConf::SX1301_conf(sx1301) => sx1301.summary(),
            Sx130xConf::SX130x_conf(sx1302) => sx1302.summary(),
        }
    }

    /// Returns the frequency of the channel at `channel`.
    pub fn frequency(&self, channel: usize) -> (r: Option<isize>)
        requires
            self.wf(),
        ensures
            r == self.data().spec_frequency_at(channel as int),
    {
        match &self.config {
            Sx130xConf::SX1301_conf(sx1301) => sx1301.frequency(channel),
            Sx130xConf::SX130x_conf(sx1302) => sx1302.frequency(channel),
        }
    }
}

} // verus!
