//! The options of a run, read from the arguments of the command line.

use crate::text::decimal;
use vstd::prelude::*;

verus! {

/// What the command line asked for.
pub struct Options {
    pub help: bool,
    pub files: Vec<String>,
    pub version: bool,
    pub verbose: bool,
    pub lighting: bool,
    pub inverted: bool,
    pub target_size: u64,
    pub transparent: bool,
    pub color_doors: bool,
}

/// Options as a value.
pub struct OptionsView {
    pub help: bool,
    pub files: Seq<Seq<char>>,
    pub version: bool,
    pub verbose: bool,
    pub lighting: bool,
    pub inverted: bool,
    pub target_size: u64,
    pub transparent: bool,
    pub color_doors: bool,
}

/// The texts as values.
pub open spec fn text_views(texts: Seq<String>) -> Seq<Seq<char>> {
    Seq::new(texts.len(), |i: int| texts[i]@)
}

impl View for Options {
    type V = OptionsView;

    open spec fn view(&self) -> OptionsView {
        OptionsView {
            help: self.help,
            files: text_views(self.files@),
            version: self.version,
            verbose: self.verbose,
            lighting: self.lighting,
            inverted: self.inverted,
            target_size: self.target_size,
            transparent: self.transparent,
            color_doors: self.color_doors,
        }
    }
}

/// Why the arguments give no options.
#[derive(Clone, Debug, PartialEq, Eq)]
pub enum OptionsError {
    /// There is no argument at all.
    NoArgs,
    /// The last argument asks for a size and none follows.
    MissingSize,
    /// What follows the request for a size is no number.
    BadSize(String),
}

/// An error as a value.
pub enum OptionsErrorView {
    NoArgs,
    MissingSize,
    BadSize(Seq<char>),
}

impl View for OptionsError {
    type V = OptionsErrorView;

    open spec fn view(&self) -> OptionsErrorView {
        match self {
            OptionsError::NoArgs => OptionsErrorView::NoArgs,
            OptionsError::MissingSize => OptionsErrorView::MissingSize,
            OptionsError::BadSize(t) => OptionsErrorView::BadSize(t@),
        }
    }
}

impl OptionsError {
    /// The error in words.
    pub open spec fn text(self) -> Seq<char> {
        match self {
            OptionsError::NoArgs => "No args supplied"@,
            OptionsError::MissingSize => "No size arg supplied"@,
            OptionsError::BadSize(t) => "Err: Couldn't parse '"@ + t@ + "' to uint"@,
        }
    }

    /// The error in words, for a report.
    pub fn message(&self) -> (s: String)
        ensures
            s@ == self.text(),
    {
        match self {
            OptionsError::NoArgs => String::from_str("No args supplied"),
            OptionsError::MissingSize => String::from_str("No size arg supplied"),
            OptionsError::BadSize(t) => {
                let mut s = String::from_str("Err: Couldn't parse '");
                s.append(t.as_str());
                s.append("' to uint");
                s
            },
        }
    }
}

/// Whether the text is one decimal digit or more.
pub open spec fn all_digits(s: Seq<char>) -> bool {
    s.len() > 0 && forall|i: int| 0 <= i < s.len() ==> '0' <= #[trigger] s[i] <= '9'
}

/// The number that decimal digits stand for.
pub open spec fn digits_value(s: Seq<char>) -> nat
    decreases s.len(),
{
    if s.len() == 0 {
        0
    } else {
        digits_value(s.drop_last()) * 10 + (s.last() as nat - '0' as nat) as nat
    }
}

/// The text without a plus sign at its start.
pub open spec fn unsigned_part(s: Seq<char>) -> Seq<char> {
    if s.len() > 0 && s[0] == '+' {
        s.drop_first()
    } else {
        s
    }
}

/// The size that a text stands for: the text is decimal digits, after a plus
/// sign or without one, and their number fits in 64 bits; else it stands for
/// none.
pub open spec fn parse_size(s: Seq<char>) -> Option<u64> {
    let digits = unsigned_part(s);
    if all_digits(digits) && digits_value(digits) <= u64::MAX {
        Some(digits_value(digits) as u64)
    } else {
        None
    }
}

/// The decimal digits of a number are digits, and worth the number.
pub proof fn lemma_decimal_digits(n: nat)
    ensures
        all_digits(decimal(n)),
        digits_value(decimal(n)) == n,
    decreases n,
{
    if n < 10 {
        let one = decimal(n);
        assert(digits_value(one.drop_last()) == 0);
    } else {
        lemma_decimal_digits(n / 10);
        let front = decimal(n / 10);
        let all = decimal(n);
        assert(all.drop_last() =~= front);
        assert forall|i: int| 0 <= i < all.len() implies '0' <= #[trigger] all[i] <= '9' by {}
    }
}

/// A size written out in decimal reads back as itself.
pub proof fn lemma_size_of_decimal(n: u64)
    ensures
        parse_size(decimal(n as nat)) == Some(n),
{
    lemma_decimal_digits(n as nat);
}

/// The digits before the last are worth no more than all of them.
proof fn lemma_digits_grow(s: Seq<char>, k: int)
    requires
        all_digits(s),
        0 <= k <= s.len(),
    ensures
        digits_value(s.take(k)) <= digits_value(s),
    decreases s.len() - k,
{
    if k < s.len() {
        let longer = s.take(k + 1);
        assert(longer.drop_last() =~= s.take(k));
        lemma_digits_grow(s, k + 1);
    } else {
        assert(s.take(k) =~= s);
    }
}

/// The worth of a character as a decimal digit, if it is one.
fn digit_of(c: char) -> (d: Option<u64>)
    ensures
        d is Some <==> '0' <= c <= '9',
        d matches Some(v) ==> v == c as nat - '0' as nat && v <= 9,
{
    if c >= '0' && c <= '9' {
        Some((c as u64) - ('0' as u64))
    } else {
        None
    }
}

/// Reads a size: decimal digits after an optional plus sign and nothing
/// else, for a number of no more than 64 bits.
pub fn read_size(s: &str) -> (r: Option<u64>)
    ensures
        r == parse_size(s@),
{
    let n: usize = s.unicode_len();
    if n == 0 {
        return None;
    }
    let start: usize = if s.get_char(0) == '+' {
        1
    } else {
        0
    };
    let ghost digits = unsigned_part(s@);
    if start == n {
        return None;
    }
    let mut value: u64 = 0;
    let mut i: usize = start;
    while i < n
        invariant
            start <= i <= n,
            n == s@.len(),
            digits == s@.subrange(start as int, n as int),
            digits == unsigned_part(s@),
            forall|k: int| 0 <= k < i - start ==> '0' <= #[trigger] digits[k] <= '9',
            value == digits_value(digits.take(i - start)),
        decreases n - i,
    {
        let c = s.get_char(i);
        proof {
            let upto = digits.take(i - start + 1);
            assert(upto.drop_last() =~= digits.take(i - start));
        }
        match digit_of(c) {
            None => {
                assert(!('0' <= digits[i - start] <= '9'));
                return None;
            },
            Some(d) => {
                if value > (u64::MAX - d) / 10 {
                    proof {
                        if all_digits(digits) {
                            lemma_digits_grow(digits, i - start + 1);
                        }
                    }
                    return None;
                }
                value = value * 10 + d;
            },
        }
        i += 1;
    }
    assert(digits.take(i - start) =~= digits);
    Some(value)
}

/// The options before any argument is read.
pub open spec fn defaults() -> OptionsView {
    OptionsView {
        help: false,
        files: Seq::empty(),
        version: false,
        verbose: false,
        lighting: false,
        inverted: false,
        target_size: 1024,
        transparent: false,
        color_doors: false,
    }
}

/// Whether an argument is the flag with the given short and long form.
pub open spec fn is_flag(arg: Seq<char>, short: &str, long: &str) -> bool {
    arg == short@ || arg == long@
}

/// What the arguments from place `i` on make of the options `o`.
///
/// Each flag switches its option on. A request for a size takes the next
/// argument for the size. Every other argument is a file.
pub open spec fn read_args(o: OptionsView, args: Seq<Seq<char>>, i: int) -> Result<
    OptionsView,
    OptionsErrorView,
>
    decreases args.len() - i,
{
    if i < 0 || i >= args.len() {
        Ok(o)
    } else if is_flag(args[i], "-h", "--help") {
        read_args(OptionsView { help: true, ..o }, args, i + 1)
    } else if is_flag(args[i], "-v", "--version") {
        read_args(OptionsView { version: true, ..o }, args, i + 1)
    } else if is_flag(args[i], "-V", "--verbose") {
        read_args(OptionsView { verbose: true, ..o }, args, i + 1)
    } else if is_flag(args[i], "-l", "--lighting") {
        read_args(OptionsView { lighting: true, ..o }, args, i + 1)
    } else if is_flag(args[i], "-i", "--invert") {
        read_args(OptionsView { inverted: true, ..o }, args, i + 1)
    } else if is_flag(args[i], "-d", "--doors") {
        read_args(OptionsView { color_doors: true, ..o }, args, i + 1)
    } else if is_flag(args[i], "-t", "--transparent") {
        read_args(OptionsView { transparent: true, ..o }, args, i + 1)
    } else if is_flag(args[i], "-s", "--size") {
        if i + 1 >= args.len() {
            Err(OptionsErrorView::MissingSize)
        } else {
            match parse_size(args[i + 1]) {
                Some(n) => read_args(OptionsView { target_size: n, ..o }, args, i + 2),
                None => Err(OptionsErrorView::BadSize(args[i + 1])),
            }
        }
    } else {
        read_args(OptionsView { files: o.files.push(args[i]), ..o }, args, i + 1)
    }
}

/// What the arguments of a command line, without the name of the program,
/// give: an error where there is none, else what reading them from the first
/// on makes of the defaults.
pub open spec fn parse_args(args: Seq<Seq<char>>) -> Result<OptionsView, OptionsErrorView> {
    if args.len() == 0 {
        Err(OptionsErrorView::NoArgs)
    } else {
        read_args(defaults(), args, 0)
    }
}

/// Whether an argument is the flag with the given short and long form.
fn matches_flag(arg: &String, short: &str, long: &str) -> (b: bool)
    ensures
        b == is_flag(arg@, short, long),
{
    let s = String::from_str(short);
    let l = String::from_str(long);
    *arg == s || *arg == l
}

impl Options {
    /// Reads the options from the arguments of the command line, the name of
    /// the program left out.
    pub fn new(args: &Vec<String>) -> (r: Result<Options, OptionsError>)
        ensures
            match r {
                Ok(o) => parse_args(text_views(args@)) == Ok::<OptionsView, OptionsErrorView>(o@),
                Err(e) => parse_args(text_views(args@)) == Err::<OptionsView, OptionsErrorView>(
                    e@,
                ),
            },
    {
        if args.len() == 0 {
            return Err(OptionsError::NoArgs);
        }
        let mut opts = Options {
            help: false,
            files: Vec::new(),
            version: false,
            verbose: false,
            lighting: false,
            inverted: false,
            target_size: 1024,
            transparent: false,
            color_doors: false,
        };
        let ghost argv = text_views(args@);
        assert(opts@.files =~= defaults().files);

        let mut index: usize = 0;
        while index < args.len()
            invariant
                index <= args@.len(),
                argv == text_views(args@),
                read_args(opts@, argv, index as int) == parse_args(argv),
            decreases args@.len() - index,
        {
            let v = &args[index];
            if matches_flag(v, "-h", "--help") {
                opts.help = true;
            } else if matches_flag(v, "-v", "--version") {
                opts.version = true;
            } else if matches_flag(v, "-V", "--verbose") {
                opts.verbose = true;
            } else if matches_flag(v, "-l", "--lighting") {
                opts.lighting = true;
            } else if matches_flag(v, "-i", "--invert") {
                opts.inverted = true;
            } else if matches_flag(v, "-d", "--doors") {
                opts.color_doors = true;
            } else if matches_flag(v, "-t", "--transparent") {
                opts.transparent = true;
            } else if matches_flag(v, "-s", "--size") {
                if index + 1 >= args.len() {
                    return Err(OptionsError::MissingSize);
                }
                let v2 = &args[index + 1];
                match read_size(v2.as_str()) {
                    Some(n) => {
                        opts.target_size = n;
                    },
                    None => {
                        return Err(OptionsError::BadSize(v2.clone()));
                    },
                }
                index += 1;
            } else {
                proof {
                    assert(text_views(opts.files@.push(*v)) =~= text_views(opts.files@).push(v@));
                }
                opts.files.push(v.clone());
            }
            index += 1;
        }

        Ok(opts)
    }
}

} // verus!
