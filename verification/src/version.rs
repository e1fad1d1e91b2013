//! Runtime versions: a sequence of small numbers, written with dots between
//! them (`0.10.2`).

use vstd::prelude::*;
use vstd::std_specs::cmp::PartialEqSpecImpl;
use crate::text::{chars_of, same_chars, string_of};

verus! {

/// The character that writes the digit `d`, for `0 <= d <= 9`.
pub open spec fn digit_char(d: int) -> char {
    if d == 0 {
        '0'
    } else if d == 1 {
        '1'
    } else if d == 2 {
        '2'
    } else if d == 3 {
        '3'
    } else if d == 4 {
        '4'
    } else if d == 5 {
        '5'
    } else if d == 6 {
        '6'
    } else if d == 7 {
        '7'
    } else if d == 8 {
        '8'
    } else {
        '9'
    }
}

/// The digit that `c` writes, if it is one of `0` to `9`.
pub open spec fn digit_value(c: char) -> Option<int> {
    if c == '0' {
        Some(0)
    } else if c == '1' {
        Some(1)
    } else if c == '2' {
        Some(2)
    } else if c == '3' {
        Some(3)
    } else if c == '4' {
        Some(4)
    } else if c == '5' {
        Some(5)
    } else if c == '6' {
        Some(6)
    } else if c == '7' {
        Some(7)
    } else if c == '8' {
        Some(8)
    } else if c == '9' {
        Some(9)
    } else {
        None
    }
}

/// `n` written in base ten, without leading zeros.
pub open spec fn decimal(n: int) -> Seq<char>
    decreases n,
{
    if n < 10 {
        seq![digit_char(n)]
    } else {
        decimal(n / 10).push(digit_char(n % 10))
    }
}

/// The components written in base ten with a dot between neighbours.
pub open spec fn dotted(parts: Seq<u8>) -> Seq<char>
    decreases parts.len(),
{
    if parts.len() == 0 {
        Seq::empty()
    } else if parts.len() == 1 {
        decimal(parts[0] as int)
    } else {
        dotted(parts.drop_last()) + seq!['.'] + decimal(parts.last() as int)
    }
}

/// The version that `text` writes in dotted form: the one sequence of
/// components, at least one, whose dotted form is exactly `text`. There is
/// none where `text` holds anything but digits and single dots between them,
/// a component over 255, or a leading zero.
pub open spec fn dotted_version(text: Seq<char>) -> Option<Seq<u8>> {
    if exists|parts: Seq<u8>| parts.len() > 0 && dotted(parts) == text {
        Some(choose|parts: Seq<u8>| parts.len() > 0 && dotted(parts) == text)
    } else {
        None
    }
}

/// Whether version `a` is older than version `b`: at the first place where
/// they differ `a` has the smaller component, or `a` ends there and `b`
/// goes on.
pub open spec fn older(a: Seq<u8>, b: Seq<u8>) -> bool
    decreases a.len(),
{
    if b.len() == 0 {
        false
    } else if a.len() == 0 {
        true
    } else if a[0] != b[0] {
        a[0] < b[0]
    } else {
        older(a.drop_first(), b.drop_first())
    }
}

/// No version is older than itself.
pub proof fn lemma_older_irreflexive(a: Seq<u8>)
    ensures
        !older(a, a),
    decreases a.len(),
{
    if a.len() > 0 {
        lemma_older_irreflexive(a.drop_first());
    }
}

/// Of two versions exactly one holds: they are the same, the first is
/// older, or the second is.
pub proof fn lemma_older_total(a: Seq<u8>, b: Seq<u8>)
    ensures
        a == b || older(a, b) || older(b, a),
        !(older(a, b) && older(b, a)),
        a == b ==> !older(a, b),
    decreases a.len(),
{
    lemma_older_irreflexive(a);
    if a.len() > 0 && b.len() > 0 && a[0] == b[0] {
        lemma_older_total(a.drop_first(), b.drop_first());
        if a.drop_first() == b.drop_first() {
            assert(a =~= seq![a[0]] + a.drop_first());
            assert(b =~= seq![b[0]] + b.drop_first());
        }
    } else if a.len() == 0 && b.len() == 0 {
        assert(a =~= b);
    }
}

/// A version that is older than one that is older than a third is older
/// than the third.
pub proof fn lemma_older_transitive(a: Seq<u8>, b: Seq<u8>, c: Seq<u8>)
    requires
        older(a, b),
        older(b, c),
    ensures
        older(a, c),
    decreases a.len(),
{
    if a.len() > 0 && b.len() > 0 && c.len() > 0 && a[0] == b[0] && b[0] == c[0] {
        lemma_older_transitive(a.drop_first(), b.drop_first(), c.drop_first());
    }
}

/// Where a left-to-right reading of dotted text stands: the components that
/// are complete, the value of the digits read since the last dot, and
/// whether the text has already gone wrong.
struct Reading {
    done: Seq<u8>,
    run: Option<int>,
    bad: bool,
}

spec fn reading_start() -> Reading {
    Reading { done: Seq::empty(), run: None, bad: false }
}

spec fn read_char(r: Reading, c: char) -> Reading {
    if r.bad {
        r
    } else if c == '.' {
        match r.run {
            Some(n) => Reading { done: r.done.push(n as u8), run: None, bad: false },
            None => Reading { done: r.done, run: r.run, bad: true },
        }
    } else {
        match digit_value(c) {
            Some(d) => {
                let n = (match r.run {
                    Some(m) => m,
                    None => 0,
                }) * 10 + d;
                if n > 255 {
                    Reading { done: r.done, run: r.run, bad: true }
                } else {
                    Reading { done: r.done, run: Some(n), bad: false }
                }
            },
            None => Reading { done: r.done, run: r.run, bad: true },
        }
    }
}

spec fn read_from(r: Reading, text: Seq<char>) -> Reading
    decreases text.len(),
{
    if text.len() == 0 {
        r
    } else {
        read_char(read_from(r, text.drop_last()), text.last())
    }
}

/// The components that a lenient reading finds: leading zeros pass.
spec fn read_all(text: Seq<char>) -> Option<Seq<u8>> {
    let r = read_from(reading_start(), text);
    if !r.bad && r.run is Some {
        Some(r.done.push(r.run->0 as u8))
    } else {
        None
    }
}

proof fn lemma_read_concat(r: Reading, a: Seq<char>, b: Seq<char>)
    ensures
        read_from(r, a + b) == read_from(read_from(r, a), b),
    decreases b.len(),
{
    if b.len() == 0 {
        assert(a + b == a);
    } else {
        assert((a + b).drop_last() == a + b.drop_last());
        assert((a + b).last() == b.last());
        lemma_read_concat(r, a, b.drop_last());
    }
}

proof fn lemma_read_decimal(r: Reading, n: int)
    requires
        !r.bad,
        r.run is None,
        0 <= n <= 255,
    ensures
        read_from(r, decimal(n)) == (Reading { done: r.done, run: Some(n), bad: false }),
    decreases n,
{
    if n < 10 {
        let text = decimal(n);
        assert(text.drop_last() == Seq::<char>::empty());
        assert(read_from(r, text.drop_last()) == r);
        assert(digit_value(digit_char(n)) == Some(n));
    } else {
        lemma_read_decimal(r, n / 10);
        let text = decimal(n);
        assert(text.drop_last() == decimal(n / 10));
        assert(text.last() == digit_char(n % 10));
        assert(digit_value(digit_char(n % 10)) == Some(n % 10));
        assert(digit_char(n % 10) != '.');
    }
}

proof fn lemma_read_dotted(parts: Seq<u8>)
    requires
        parts.len() > 0,
    ensures
        read_from(reading_start(), dotted(parts)) == (Reading {
            done: parts.drop_last(),
            run: Some(parts.last() as int),
            bad: false,
        }),
    decreases parts.len(),
{
    if parts.len() == 1 {
        lemma_read_decimal(reading_start(), parts[0] as int);
        assert(parts.drop_last() == Seq::<u8>::empty());
    } else {
        let head = parts.drop_last();
        lemma_read_dotted(head);
        let before = read_from(reading_start(), dotted(head));
        let dot = seq!['.'];
        lemma_read_concat(reading_start(), dotted(head) + dot, decimal(parts.last() as int));
        lemma_read_concat(reading_start(), dotted(head), dot);
        assert(dot.drop_last() == Seq::<char>::empty());
        assert(read_from(before, dot.drop_last()) == before);
        assert(read_from(before, dot) == read_char(before, '.'));
        let at_dot = read_char(before, '.');
        assert(head.drop_last().push(head.last()) == head);
        assert(at_dot == (Reading { done: head, run: None, bad: false }));
        lemma_read_decimal(at_dot, parts.last() as int);
    }
}

/// A lenient reading of a version's dotted form gives the version back.
proof fn lemma_read_all_dotted(parts: Seq<u8>)
    requires
        parts.len() > 0,
    ensures
        read_all(dotted(parts)) == Some(parts),
{
    lemma_read_dotted(parts);
    assert(parts.drop_last().push(parts.last()) == parts);
}

/// Two versions with the same dotted form are the same version.
pub proof fn lemma_dotted_injective(a: Seq<u8>, b: Seq<u8>)
    requires
        a.len() > 0,
        b.len() > 0,
        dotted(a) == dotted(b),
    ensures
        a == b,
{
    lemma_read_all_dotted(a);
    lemma_read_all_dotted(b);
}

/// Writing a version with dots and reading it again gives the same version.
pub proof fn lemma_write_then_read(parts: Seq<u8>)
    requires
        parts.len() > 0,
    ensures
        dotted_version(dotted(parts)) == Some(parts),
{
    let text = dotted(parts);
    let found = choose|p: Seq<u8>| p.len() > 0 && dotted(p) == text;
    lemma_dotted_injective(found, parts);
}

/// Reading dotted text and writing the version again gives the same text.
pub proof fn lemma_read_then_write(text: Seq<char>)
    requires
        dotted_version(text) is Some,
    ensures
        dotted_version(text)->0.len() > 0,
        dotted(dotted_version(text)->0) == text,
{
}

/// Whether `c` may stand between the components of a version in the name
/// of a release: a dot, a hyphen or an underscore.
pub open spec fn is_separator(c: char) -> bool {
    c == '.' || c == '-' || c == '_'
}

/// Whether all of `between` may stand between components.
pub open spec fn are_separators(between: Seq<char>) -> bool {
    forall|i: int| 0 <= i < between.len() ==> is_separator(#[trigger] between[i])
}

/// The components written in base ten, with the characters of `between`
/// between neighbours, in order: one character less than components.
pub open spec fn written_with(parts: Seq<u8>, between: Seq<char>) -> Seq<char>
    decreases parts.len(),
{
    if parts.len() == 0 {
        Seq::empty()
    } else if parts.len() == 1 {
        decimal(parts[0] as int)
    } else {
        written_with(parts.drop_last(), between.drop_last()) + seq![between.last()] + decimal(
            parts.last() as int,
        )
    }
}

/// The dotted form is the form with a dot between all neighbours.
pub proof fn lemma_dotted_is_written(parts: Seq<u8>)
    requires
        parts.len() > 0,
    ensures
        dotted(parts) == written_with(parts, Seq::new((parts.len() - 1) as nat, |i: int| '.')),
        are_separators(Seq::new((parts.len() - 1) as nat, |i: int| '.')),
    decreases parts.len(),
{
    if parts.len() > 1 {
        let dots = Seq::new((parts.len() - 1) as nat, |i: int| '.');
        lemma_dotted_is_written(parts.drop_last());
        assert(dots.drop_last() =~= Seq::new((parts.len() - 2) as nat, |i: int| '.'));
    }
}

/// The dotted form of the version that `version_lp::Version::from_str` reads
/// out of `text`, or `None` where it reads none.
pub uninterp spec fn version_lp_dotted(text: Seq<char>) -> Option<Seq<char>>;

/// The version that is read out of free text: what `version_lp` finds in
/// it, where that is a plain sequence of numbers.
pub open spec fn version_in_text(text: Seq<char>) -> Option<Seq<u8>> {
    match version_lp_dotted(text) {
        Some(found) => dotted_version(found),
        None => None,
    }
}

/// `version_lp::Version::from_str`, followed by `to_string` on the version
/// it gives. The first takes each run of digits and asterisks in `text` for
/// a part, a number where the run is one up to 255, and gives no version
/// where there is no run; the second joins the parts with dots. Two things
/// are claimed: that the result depends on `text` alone, and that numbers
/// up to 255, written without leading zeros and with a dot, a hyphen or an
/// underscore between neighbours, come out as the same numbers with dots
/// between them.
#[verifier::external_body]
fn read_with_version_lp(text: &str) -> (r: Option<String>)
    ensures
        r is Some <==> version_lp_dotted(text@) is Some,
        r is Some ==> version_lp_dotted(text@) == Some(r->0@),
        forall|parts: Seq<u8>, between: Seq<char>|
            parts.len() > 0 && between.len() + 1 == parts.len() && are_separators(between)
                && text@ == #[trigger] written_with(parts, between) ==> r is Some && r->0@
                == dotted(parts),
{
    version_lp::Version::from_str(text).map(|v| v.to_string())
}

/// A runtime version. Its view is the sequence of its components, of which
/// there is at least one.
#[derive(Debug)]
pub struct Version {
    parts: Vec<u8>,
}

impl View for Version {
    type V = Seq<u8>;

    closed spec fn view(&self) -> Seq<u8> {
        self.parts@
    }
}

/// The view of a version that may be missing.
pub open spec fn view_of(v: Option<Version>) -> Option<Seq<u8>> {
    match v {
        Some(v) => Some(v@),
        None => None,
    }
}

fn digit_of(c: char) -> (r: Option<u8>)
    ensures
        match r {
            Some(d) => digit_value(c) == Some(d as int),
            None => digit_value(c) is None,
        },
{
    match c {
        '0' => Some(0),
        '1' => Some(1),
        '2' => Some(2),
        '3' => Some(3),
        '4' => Some(4),
        '5' => Some(5),
        '6' => Some(6),
        '7' => Some(7),
        '8' => Some(8),
        '9' => Some(9),
        _ => None,
    }
}

fn char_of_digit(d: u8) -> (r: char)
    requires
        d <= 9,
    ensures
        r == digit_char(d as int),
{
    match d {
        0 => '0',
        1 => '1',
        2 => '2',
        3 => '3',
        4 => '4',
        5 => '5',
        6 => '6',
        7 => '7',
        8 => '8',
        _ => '9',
    }
}

fn push_decimal(out: &mut Vec<char>, n: u8)
    ensures
        final(out)@ == old(out)@ + decimal(n as int),
{
    let ghost before = out@;
    if n >= 100 {
        out.push(char_of_digit(n / 100));
    }
    if n >= 10 {
        out.push(char_of_digit((n / 10) % 10));
    }
    out.push(char_of_digit(n % 10));
    proof {
        let v = n as int;
        if v < 10 {
            assert(out@ == before + decimal(v));
        } else if v < 100 {
            assert(decimal(v / 10) == seq![digit_char(v / 10)]);
            assert(out@ == before + decimal(v));
        } else {
            assert(decimal(v / 100) == seq![digit_char(v / 100)]);
            assert(decimal(v / 10) == decimal(v / 100).push(digit_char((v / 10) % 10)));
            assert(out@ == before + decimal(v));
        }
    }
}

fn read_chars(text: &Vec<char>) -> (r: Option<Vec<u8>>)
    ensures
        match r {
            Some(parts) => read_all(text@) == Some(parts@),
            None => read_all(text@) is None,
        },
{
    let mut done: Vec<u8> = Vec::new();
    let mut run: Option<u8> = None;
    let mut i: usize = 0;
    while i < text.len()
        invariant
            i <= text.len(),
            read_from(reading_start(), text@.take(i as int)) == (Reading {
                done: done@,
                run: match run {
                    Some(n) => Some(n as int),
                    None => None,
                },
                bad: false,
            }),
        decreases text.len() - i,
    {
        let c = text[i];
        let ghost before = read_from(reading_start(), text@.take(i as int));
        let ghost next = text@.take(i + 1);
        assert(next.drop_last() == text@.take(i as int));
        assert(next.last() == c);
        assert(read_from(reading_start(), next) == read_char(before, c));
        let mut bad = false;
        if c == '.' {
            match run {
                Some(n) => {
                    done.push(n);
                    run = None;
                },
                None => {
                    bad = true;
                },
            }
        } else {
            match digit_of(c) {
                Some(d) => {
                    let so_far: u16 = match run {
                        Some(m) => m as u16,
                        None => 0,
                    };
                    let n: u16 = so_far * 10 + d as u16;
                    if n > 255 {
                        bad = true;
                    } else {
                        run = Some(n as u8);
                    }
                },
                None => {
                    bad = true;
                },
            }
        }
        if bad {
            proof {
                lemma_bad_stays(read_char(before, c), text@.skip(i + 1));
                lemma_read_concat(reading_start(), next, text@.skip(i + 1));
                assert(next + text@.skip(i + 1) == text@);
            }
            return None;
        }
        i += 1;
    }
    assert(text@.take(text.len() as int) == text@);
    match run {
        Some(n) => {
            done.push(n);
            Some(done)
        },
        None => None,
    }
}

proof fn lemma_bad_stays(r: Reading, text: Seq<char>)
    requires
        r.bad,
    ensures
        read_from(r, text).bad,
    decreases text.len(),
{
    if text.len() > 0 {
        lemma_bad_stays(r, text.drop_last());
    }
}

impl Version {
    /// A version has at least one component.
    #[verifier::type_invariant]
    pub open spec fn has_parts(self) -> bool {
        self@.len() > 0
    }

    /// The version with the given components.
    pub fn new(numbers: &[u8]) -> (r: Version)
        requires
            numbers@.len() > 0,
        ensures
            r@ == numbers@,
    {
        let mut parts: Vec<u8> = Vec::new();
        let mut i: usize = 0;
        while i < numbers.len()
            invariant
                i <= numbers.len(),
                parts@ == numbers@.take(i as int),
            decreases numbers.len() - i,
        {
            parts.push(numbers[i]);
            i += 1;
            assert(numbers@.take(i as int) == numbers@.take(i - 1).push(numbers@[i - 1]));
        }
        assert(numbers@.take(numbers.len() as int) == numbers@);
        Version { parts }
    }

    /// The version written in `text` in dotted form, if `text` is the dotted
    /// form of one.
    pub fn from_dotted(text: &str) -> (r: Option<Version>)
        ensures
            view_of(r) == dotted_version(text@),
    {
        let chars = chars_of(text);
        match read_chars(&chars) {
            Some(parts) => {
                let found = Version { parts };
                let again = found.dotted_chars();
                if same_chars(&again, &chars) {
                    proof {
                        lemma_write_then_read(found@);
                    }
                    Some(found)
                } else {
                    proof {
                        if dotted_version(text@) is Some {
                            lemma_read_all_dotted(dotted_version(text@)->0);
                        }
                    }
                    None
                }
            },
            None => {
                proof {
                    if dotted_version(text@) is Some {
                        lemma_read_all_dotted(dotted_version(text@)->0);
                    }
                }
                None
            },
        }
    }

    /// The version that `version_lp` reads out of free text (`love-0.10.2`,
    /// `11_3_0`), where it is made of numbers alone.
    ///
    /// Numbers up to 255, written without leading zeros and with a dot, a
    /// hyphen or an underscore between neighbours, are read as the version
    /// with these numbers as its components.
    pub fn from_str(text: &str) -> (r: Option<Version>)
        ensures
            view_of(r) == version_in_text(text@),
            forall|parts: Seq<u8>, between: Seq<char>|
                parts.len() > 0 && between.len() + 1 == parts.len() && are_separators(between)
                    && text@ == #[trigger] written_with(parts, between) ==> view_of(r) == Some(
                    parts,
                ),
    {
        match read_with_version_lp(text) {
            Some(found) => {
                let r = Version::from_dotted(found.as_str());
                assert forall|parts: Seq<u8>, between: Seq<char>|
                    parts.len() > 0 && between.len() + 1 == parts.len() && are_separators(between)
                        && text@ == #[trigger] written_with(parts, between) implies view_of(r)
                    == Some(parts) by {
                    lemma_write_then_read(parts);
                }
                r
            },
            None => None,
        }
    }

    /// How many components the version has.
    pub fn len(&self) -> (r: usize)
        ensures
            r == self@.len(),
            r > 0,
    {
        proof {
            use_type_invariant(self);
        }
        self.parts.len()
    }

    /// The component at `at`.
    pub fn part(&self, at: usize) -> (r: u8)
        requires
            at < self@.len(),
        ensures
            r == self@[at as int],
    {
        self.parts[at]
    }

    /// Whether this version is older than `other`.
    pub fn is_older_than(&self, other: &Version) -> (r: bool)
        ensures
            r == older(self@, other@),
    {
        let mut i: usize = 0;
        assert(self.parts@.skip(0) == self.parts@);
        assert(other.parts@.skip(0) == other.parts@);
        while i < self.parts.len() && i < other.parts.len()
            invariant
                i <= self.parts@.len(),
                i <= other.parts@.len(),
                older(self.parts@, other.parts@) == older(
                    self.parts@.skip(i as int),
                    other.parts@.skip(i as int),
                ),
            decreases self.parts.len() - i,
        {
            let ghost a = self.parts@.skip(i as int);
            let ghost b = other.parts@.skip(i as int);
            assert(a.drop_first() == self.parts@.skip(i + 1));
            assert(b.drop_first() == other.parts@.skip(i + 1));
            if self.parts[i] != other.parts[i] {
                return self.parts[i] < other.parts[i];
            }
            i += 1;
        }
        i < other.parts.len()
    }

    fn dotted_chars(&self) -> (r: Vec<char>)
        ensures
            r@ == dotted(self@),
    {
        let mut out: Vec<char> = Vec::new();
        let mut i: usize = 0;
        while i < self.parts.len()
            invariant
                i <= self.parts.len(),
                out@ == dotted(self.parts@.take(i as int)),
            decreases self.parts.len() - i,
        {
            let ghost head = self.parts@.take(i as int);
            let ghost upto = self.parts@.take(i + 1);
            assert(upto.drop_last() == head);
            assert(upto.last() == self.parts@[i as int]);
            if i > 0 {
                out.push('.');
            }
            push_decimal(&mut out, self.parts[i]);
            proof {
                if i == 0 {
                    assert(Seq::<char>::empty() + decimal(upto[0] as int) == decimal(upto[0] as int));
                } else {
                    assert(dotted(head).push('.') == dotted(head) + seq!['.']);
                }
            }
            i += 1;
        }
        assert(self.parts@.take(self.parts.len() as int) == self.parts@);
        out
    }

    /// The dotted form: the components in base ten with a dot between
    /// neighbours.
    pub fn to_string(&self) -> (r: String)
        ensures
            r@ == dotted(self@),
    {
        string_of(&self.dotted_chars())
    }
}

impl PartialEq for Version {
    fn eq(&self, other: &Version) -> (r: bool) {
        if self.parts.len() != other.parts.len() {
            return false;
        }
        let mut i: usize = 0;
        while i < self.parts.len()
            invariant
                i <= self.parts.len(),
                self.parts.len() == other.parts.len(),
                self.parts@.take(i as int) == other.parts@.take(i as int),
            decreases self.parts.len() - i,
        {
            if self.parts[i] != other.parts[i] {
                return false;
            }
            i += 1;
            assert(self.parts@.take(i as int) == self.parts@.take(i - 1).push(self.parts@[i - 1]));
            assert(other.parts@.take(i as int) == other.parts@.take(i - 1).push(
                other.parts@[i - 1],
            ));
        }
        assert(self.parts@.take(self.parts.len() as int) == self.parts@);
        assert(other.parts@.take(other.parts.len() as int) == other.parts@);
        true
    }
}

impl PartialEqSpecImpl for Version {
    open spec fn obeys_eq_spec() -> bool {
        true
    }

    open spec fn eq_spec(&self, other: &Version) -> bool {
        self@ == other@
    }
}

impl Eq for Version {

}

impl Clone for Version {
    fn clone(&self) -> (r: Version)
        ensures
            r@ == self@,
    {
        proof {
            use_type_invariant(self);
        }
        Version { parts: self.parts.clone() }
    }
}

} // verus!
