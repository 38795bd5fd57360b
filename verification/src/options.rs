//! Classification of a codec's private options.
//!
//! The codec library hands out its option list as raw records; each one is
//! classified by its type tag into a typed value, with the sentinel bounds
//! and missing texts resolved exactly as the contracts state.

use vstd::prelude::*;
use crate::text::spec_decimal;
use crate::text::spec_decimal_i64;
use crate::text::spec_binary;
use crate::text::decimal_i64;
use crate::text::decimal_u64;
use crate::text::binary_u64;

verus! {

/// The typed value of one codec option.
#[derive(Debug, Clone, PartialEq, Eq)]
pub enum OptionValue {
    /// An integer option; bounds are present only when the codec declares
    /// them (its sentinels mean "unbounded").
    Int { default: i64, min: Option<i64>, max: Option<i64> },
    /// A bit-flag option.
    Flags { default: i64 },
    /// A text option.
    Str { default: String },
    /// Any other option type.
    Other,
}

/// One codec option: its name, its help text, and its typed value.
#[derive(Debug, Clone, PartialEq, Eq)]
pub struct CodecOption {
    pub name: String,
    pub help: String,
    pub value_type: OptionValue,
}

/// Every private option a codec declares.
#[derive(Debug, Clone, PartialEq, Eq)]
pub struct CodecPrivateOptions {
    pub codec_name: String,
    pub options: Vec<CodecOption>,
}

/// The coarse type tag of a raw option record.
#[derive(Debug, Clone, Copy, PartialEq, Eq, Structural)]
pub enum RawOptionKind {
    Int,
    Flags,
    Text,
    Other,
}

/// One option as the codec library reports it: the name, the help text if
/// any, the type tag, and the raw default and bounds.
#[derive(Debug, Clone, PartialEq, Eq)]
pub struct RawCodecOption {
    pub name: String,
    /// `None` when the codec gives no help text.
    pub help: Option<String>,
    pub kind: RawOptionKind,
    pub default_int: i64,
    /// `None` when the default text is null.
    pub default_str: Option<String>,
    pub min: i64,
    pub max: i64,
}

/// How one raw record classifies: the name kept, missing help and text
/// defaults replaced by their fixed fallbacks, and the integer bounds
/// dropped at the codec's sentinels.
pub open spec fn spec_classified(raw: RawCodecOption, out: CodecOption) -> bool {
    &&& out.name@ == raw.name@
    &&& out.help@ == (match raw.help {
        Some(h) => h@,
        None => "No help available"@,
    })
    &&& match raw.kind {
        RawOptionKind::Int => out.value_type matches OptionValue::Int { default, min, max } && {
            &&& default == raw.default_int
            &&& min == (if raw.min != i64::MIN {
                Some(raw.min)
            } else {
                None
            })
            &&& max == (if raw.max != i64::MAX {
                Some(raw.max)
            } else {
                None
            })
        },
        RawOptionKind::Flags => out.value_type matches OptionValue::Flags { default } && default
            == raw.default_int,
        RawOptionKind::Text => out.value_type matches OptionValue::Str { default } && default@
            == (match raw.default_str {
            Some(s) => s@,
            None => "null"@,
        }),
        RawOptionKind::Other => out.value_type == OptionValue::Other,
    }
}

/// Classifies one raw option record.
pub fn classify_option(raw: RawCodecOption) -> (r: CodecOption)
    ensures
        spec_classified(raw, r),
{
    let RawCodecOption { name, help, kind, default_int, default_str, min, max } = raw;
    let help = match help {
        Some(h) => h,
        None => String::from_str("No help available"),
    };
    let value_type = match kind {
        RawOptionKind::Int => OptionValue::Int {
            default: default_int,
            min: if min != i64::MIN {
                Some(min)
            } else {
                None
            },
            max: if max != i64::MAX {
                Some(max)
            } else {
                None
            },
        },
        RawOptionKind::Flags => OptionValue::Flags { default: default_int },
        RawOptionKind::Text => OptionValue::Str {
            default: match default_str {
                Some(s) => s,
                None => String::from_str("null"),
            },
        },
        RawOptionKind::Other => OptionValue::Other,
    };
    CodecOption { name, help, value_type }
}

/// Classifies a codec's whole option list, in order.
pub fn get_codec_private_options(codec_name: String, raw: Vec<RawCodecOption>) -> (r:
    CodecPrivateOptions)
    ensures
        r.codec_name@ == codec_name@,
        r.options@.len() == raw@.len(),
        forall|i: int| 0 <= i < raw@.len() ==> spec_classified(raw@[i], #[trigger] r.options@[i]),
{
    let mut options: Vec<CodecOption> = Vec::new();
    let mut raw = raw;
    let ghost raw0 = raw@;
    let n = raw.len();
    let mut i: usize = 0;
    while raw.len() > 0
        invariant
            raw0.len() == n,
            raw0.len() == i + raw@.len(),
            raw@ =~= raw0.subrange(i as int, raw0.len() as int),
            options@.len() == i,
            forall|j: int| 0 <= j < i ==> spec_classified(raw0[j], #[trigger] options@[j]),
        decreases raw@.len(),
    {
        let first = raw.remove(0);
        proof {
            assert(first == raw0[i as int]);
            assert(raw@ =~= raw0.subrange(i as int + 1, raw0.len() as int));
        }
        let classified = classify_option(first);
        options.push(classified);
        i = i + 1;
    }
    CodecPrivateOptions { codec_name, options }
}

/// The text an integer option's description carries: the default, then the
/// bounds that are present.
pub open spec fn spec_int_description(default: i64, min: Option<i64>, max: Option<i64>) -> Seq<
    char,
> {
    "Int("@ + spec_decimal_i64(default as int) + (match min {
        Some(m) => ", min="@ + spec_decimal_i64(m as int),
        None => Seq::empty(),
    }) + (match max {
        Some(m) => ", max="@ + spec_decimal_i64(m as int),
        None => Seq::empty(),
    }) + ")"@
}

/// The description of an option value, as the option listing prints it.
pub open spec fn spec_value_description(v: OptionValue) -> Seq<char> {
    match v {
        OptionValue::Int { default, min, max } => spec_int_description(default, min, max),
        OptionValue::Flags { default } => "Flags(0b"@ + spec_binary((default as u64) as nat)
            + ")"@,
        OptionValue::Str { default } => "String(\""@ + default@ + "\")"@,
        OptionValue::Other => "Other(unknown type)"@,
    }
}

impl OptionValue {
    /// Renders this value for the option listing.
    pub fn describe(&self) -> (r: String)
        ensures
            r@ == spec_value_description(*self),
    {
        match self {
            OptionValue::Int { default, min, max } => {
                let mut s = String::from_str("Int(");
                let d = decimal_i64(*default);
                s.append(d.as_str());
                match min {
                    Some(m) => {
                        s.append(", min=");
                        let t = decimal_i64(*m);
                        s.append(t.as_str());
                    },
                    None => {},
                }
                match max {
                    Some(m) => {
                        s.append(", max=");
                        let t = decimal_i64(*m);
                        s.append(t.as_str());
                    },
                    None => {},
                }
                s.append(")");
                proof {
                    assert(s@ =~= spec_value_description(*self));
                }
                s
            },
            OptionValue::Flags { default } => {
                let mut s = String::from_str("Flags(0b");
                // The two's-complement bits, as a binary rendering of a
                // signed default shows them.
                let b = binary_u64(*default as u64);
                s.append(b.as_str());
                s.append(")");
                proof {
                    assert(s@ =~= spec_value_description(*self));
                }
                s
            },
            OptionValue::Str { default } => {
                let mut s = String::from_str("String(\"");
                s.append(default.as_str());
                s.append("\")");
                proof {
                    assert(s@ =~= spec_value_description(*self));
                }
                s
            },
            OptionValue::Other => String::from_str("Other(unknown type)"),
        }
    }
}

/// `n` copies of the text `s`.
pub open spec fn spec_repeat_text(s: Seq<char>, n: nat) -> Seq<char>
    decreases n,
{
    if n == 0 {
        Seq::empty()
    } else {
        spec_repeat_text(s, (n - 1) as nat) + s
    }
}

fn repeat_text(piece: &str, n: usize) -> (r: String)
    ensures
        r@ == spec_repeat_text(piece@, n as nat),
{
    let mut r = String::new();
    let mut i: usize = 0;
    proof {
        assert(r@ =~= spec_repeat_text(piece@, 0));
    }
    while i < n
        invariant
            i <= n,
            r@ == spec_repeat_text(piece@, i as nat),
        decreases n - i,
    {
        r.append(piece);
        i = i + 1;
    }
    r
}

/// The help text with a fresh `\u{2502} Help: ` prefix starting every
/// line: each line break is followed by the prefix again, so every line
/// of a multi-line help is introduced the same way.
pub open spec fn spec_help_lines(s: Seq<char>, i: int) -> Seq<char>
    decreases s.len() - i,
{
    if i < 0 || i >= s.len() {
        Seq::empty()
    } else if s[i] == '\n' {
        "\n\u{2502} Help: "@ + spec_help_lines(s, i + 1)
    } else {
        seq![s[i]] + spec_help_lines(s, i + 1)
    }
}

fn help_lines(help: &str) -> (r: String)
    ensures
        r@ == "\u{2502} Help: "@ + spec_help_lines(help@, 0),
{
    let mut r = String::from_str("\u{2502} Help: ");
    let n = help.unicode_len();
    let mut i: usize = 0;
    while i < n
        invariant
            i <= n,
            n == help@.len(),
            r@ + spec_help_lines(help@, i as int) == "\u{2502} Help: "@ + spec_help_lines(
                help@,
                0,
            ),
        decreases n - i,
    {
        let c = help.get_char(i);
        let ghost r_before = r@;
        if c == '\n' {
            r.append("\n\u{2502} Help: ");
            proof {
                assert(spec_help_lines(help@, i as int) == "\n\u{2502} Help: "@
                    + spec_help_lines(help@, i as int + 1));
                assert(r@ + spec_help_lines(help@, i as int + 1) =~= r_before + spec_help_lines(
                    help@,
                    i as int,
                ));
            }
        } else {
            let piece = help.substring_char(i, i + 1);
            r.append(piece);
            proof {
                assert(piece@ =~= seq![help@[i as int]]);
                assert(spec_help_lines(help@, i as int) == seq![help@[i as int]]
                    + spec_help_lines(help@, i as int + 1));
                assert(r@ + spec_help_lines(help@, i as int + 1) =~= r_before + spec_help_lines(
                    help@,
                    i as int,
                ));
            }
        }
        i = i + 1;
    }
    proof {
        assert(spec_help_lines(help@, n as int) =~= Seq::<char>::empty());
        assert(r@ =~= r@ + spec_help_lines(help@, n as int));
    }
    r
}

/// The text describing one option: a header with its name, its typed
/// value, its help text, and a closing rule.
pub open spec fn spec_option_description(o: CodecOption) -> Seq<char> {
    "\u{256d}\u{2500} "@ + o.name@ + " \u{2500}\n\u{2502} Type: "@ + spec_value_description(
        o.value_type,
    ) + "\n"@ + "\u{2502} Help: "@ + spec_help_lines(o.help@, 0) + "\n\u{2570}"@
        + spec_repeat_text("\u{2500}"@, 40)
}

impl CodecOption {
    /// Renders this option for the option listing.
    pub fn describe(&self) -> (r: String)
        ensures
            r@ == spec_option_description(*self),
    {
        let mut s = String::from_str("\u{256d}\u{2500} ");
        s.append(self.name.as_str());
        s.append(" \u{2500}\n\u{2502} Type: ");
        let value = self.value_type.describe();
        s.append(value.as_str());
        s.append("\n");
        let help = help_lines(self.help.as_str());
        s.append(help.as_str());
        s.append("\n\u{2570}");
        let rule = repeat_text("\u{2500}", 40);
        s.append(rule.as_str());
        proof {
            assert(s@ =~= spec_option_description(*self));
        }
        s
    }
}

/// The body lines a listing prints for the first `n` options: a spacer
/// and the option's description, each on its own line.
pub open spec fn spec_options_section(options: Seq<CodecOption>, n: int) -> Seq<char>
    decreases n,
{
    if n <= 0 {
        Seq::empty()
    } else {
        spec_options_section(options, n - 1) + "\u{2503}\n\u{2503} "@ + spec_option_description(
            options[n - 1],
        ) + "\n"@
    }
}

/// The text describing a codec's whole option listing.
pub open spec fn spec_codec_options_description(c: CodecPrivateOptions) -> Seq<char> {
    "\u{250f}\u{2501}\u{2501} Codec: "@ + c.codec_name@ + " \u{2501}\u{2501}\n\u{2523}\u{2501}\u{2501} Options: "@
        + spec_decimal(c.options@.len()) + "\n"@ + spec_options_section(
        c.options@,
        c.options@.len() as int,
    ) + "\u{2517}"@ + spec_repeat_text("\u{2501}"@, 40)
}

impl CodecPrivateOptions {
    /// Renders the codec's option listing.
    pub fn describe(&self) -> (r: String)
        ensures
            r@ == spec_codec_options_description(*self),
    {
        let mut s = String::from_str("\u{250f}\u{2501}\u{2501} Codec: ");
        s.append(self.codec_name.as_str());
        s.append(" \u{2501}\u{2501}\n\u{2523}\u{2501}\u{2501} Options: ");
        let count = decimal_u64(self.options.len() as u64);
        s.append(count.as_str());
        s.append("\n");
        let mut i: usize = 0;
        proof {
            assert(spec_options_section(self.options@, 0) =~= Seq::<char>::empty());
            assert(s@ =~= "\u{250f}\u{2501}\u{2501} Codec: "@ + self.codec_name@
                + " \u{2501}\u{2501}\n\u{2523}\u{2501}\u{2501} Options: "@ + spec_decimal(
                self.options@.len(),
            ) + "\n"@ + spec_options_section(self.options@, 0));
        }
        while i < self.options.len()
            invariant
                i <= self.options@.len(),
                s@ == "\u{250f}\u{2501}\u{2501} Codec: "@ + self.codec_name@
                    + " \u{2501}\u{2501}\n\u{2523}\u{2501}\u{2501} Options: "@ + spec_decimal(
                    self.options@.len(),
                ) + "\n"@ + spec_options_section(self.options@, i as int),
            decreases self.options@.len() - i,
        {
            s.append("\u{2503}\n\u{2503} ");
            let entry = self.options[i].describe();
            s.append(entry.as_str());
            s.append("\n");
            proof {
                assert(s@ =~= "\u{250f}\u{2501}\u{2501} Codec: "@ + self.codec_name@
                    + " \u{2501}\u{2501}\n\u{2523}\u{2501}\u{2501} Options: "@ + spec_decimal(
                    self.options@.len(),
                ) + "\n"@ + spec_options_section(self.options@, i as int + 1));
            }
            i = i + 1;
        }
        s.append("\u{2517}");
        let rule = repeat_text("\u{2501}", 40);
        s.append(rule.as_str());
        proof {
            assert(s@ =~= spec_codec_options_description(*self));
        }
        s
    }
}

} // verus!
