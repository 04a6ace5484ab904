//! Small operations on text: searching, and writing numbers in decimal.

use vstd::prelude::*;
use vstd::string::StrSliceExecFns;
use vstd::string::StringExecFns;

verus! {

/// Whether `pattern` stands in `text` at position `at`.
pub open spec fn occurs_at(text: Seq<char>, pattern: Seq<char>, at: int) -> bool {
    0 <= at && at + pattern.len() <= text.len() && text.subrange(at, at + pattern.len())
        == pattern
}

/// Whether `pattern` stands somewhere in `text`.
pub open spec fn occurs_in(text: Seq<char>, pattern: Seq<char>) -> bool {
    exists|at: int| occurs_at(text, pattern, at)
}

/// Whether `text[at..]` begins with `pattern`.
fn matches_at(text: &str, pattern: &str, at: usize) -> (found: bool)
    requires
        at + pattern@.len() <= text@.len(),
    ensures
        found == occurs_at(text@, pattern@, at as int),
{
    let length = pattern.unicode_len();
    let total = text.unicode_len();
    let mut i: usize = 0;
    while i < length
        invariant
            i <= length,
            length == pattern@.len(),
            total == text@.len(),
            at + length <= text@.len(),
            forall|j: int| 0 <= j < i ==> text@[at + j] == pattern@[j],
        decreases length - i,
    {
        if text.get_char(at + i) != pattern.get_char(i) {
            assert(text@.subrange(at as int, at + length)[i as int] != pattern@[i as int]);
            return false;
        }
        i += 1;
    }
    assert(text@.subrange(at as int, at + length) =~= pattern@);
    true
}

/// Whether the two texts are the same.
pub fn same_text(left: &str, right: &str) -> (same: bool)
    ensures
        same == (left@ == right@),
{
    if left.unicode_len() != right.unicode_len() {
        return false;
    }
    let same = matches_at(left, right, 0);
    proof {
        if left@ == right@ {
            assert(left@.subrange(0, right@.len() as int) =~= right@);
        }
        if same {
            assert(left@.subrange(0, right@.len() as int) =~= left@);
        }
    }
    same
}

/// Whether `text` begins with `prefix`.
pub fn starts_with(text: &str, prefix: &str) -> (found: bool)
    ensures
        found == prefix@.is_prefix_of(text@),
{
    if prefix.unicode_len() > text.unicode_len() {
        return false;
    }
    let found = matches_at(text, prefix, 0);
    proof {
        if found {
            assert(text@.subrange(0, prefix@.len() as int) == prefix@);
        } else if prefix@.is_prefix_of(text@) {
            assert(text@.subrange(0, prefix@.len() as int) =~= prefix@);
        }
    }
    found
}

/// Whether `pattern` stands somewhere in `text`.
pub fn contains(text: &str, pattern: &str) -> (found: bool)
    ensures
        found == occurs_in(text@, pattern@),
{
    let length = text.unicode_len();
    let width = pattern.unicode_len();
    if width > length {
        return false;
    }
    if width == 0 {
        assert(occurs_at(text@, pattern@, 0)) by {
            assert(text@.subrange(0, 0) =~= pattern@);
        }
        return true;
    }
    let last = length - width;
    let mut at: usize = 0;
    while at < last + 1
        invariant
            at <= last + 1,
            width >= 1,
            last + width == length,
            length == text@.len(),
            width == pattern@.len(),
            forall|k: int| 0 <= k < at ==> !occurs_at(text@, pattern@, k),
        decreases last + 1 - at,
    {
        if matches_at(text, pattern, at) {
            return true;
        }
        at += 1;
    }
    false
}

/// The character that stands for a decimal digit.
pub open spec fn digit_char(digit: nat) -> char {
    seq!['0', '1', '2', '3', '4', '5', '6', '7', '8', '9'][digit as int]
}

/// A number written in decimal, without leading zeros.
pub open spec fn decimal(n: nat) -> Seq<char>
    decreases n,
{
    if n < 10 {
        seq![digit_char(n)]
    } else {
        decimal(n / 10).push(digit_char(n % 10))
    }
}

/// A number written in decimal with at least `width` digits, filled up
/// with zeros in front.
pub open spec fn decimal_padded(n: nat, width: nat) -> Seq<char>
    decreases width,
{
    if width <= 1 {
        decimal(n)
    } else if n < 10 {
        decimal_padded(0, (width - 1) as nat).push(digit_char(n))
    } else {
        decimal_padded(n / 10, (width - 1) as nat).push(digit_char(n % 10))
    }
}

/// The text of one decimal digit.
fn digit_text(digit: u64) -> (text: &'static str)
    requires
        digit < 10,
    ensures
        text@ == seq![digit_char(digit as nat)],
{
    proof {
        reveal_strlit("0");
        reveal_strlit("1");
        reveal_strlit("2");
        reveal_strlit("3");
        reveal_strlit("4");
        reveal_strlit("5");
        reveal_strlit("6");
        reveal_strlit("7");
        reveal_strlit("8");
        reveal_strlit("9");
    }
    let text = if digit == 0 {
        "0"
    } else if digit == 1 {
        "1"
    } else if digit == 2 {
        "2"
    } else if digit == 3 {
        "3"
    } else if digit == 4 {
        "4"
    } else if digit == 5 {
        "5"
    } else if digit == 6 {
        "6"
    } else if digit == 7 {
        "7"
    } else if digit == 8 {
        "8"
    } else {
        "9"
    };
    assert(text@ =~= seq![digit_char(digit as nat)]);
    text
}

/// Writes `n` in decimal behind `text`.
pub fn append_decimal(text: &mut String, n: u64)
    ensures
        final(text)@ == old(text)@ + decimal(n as nat),
    decreases n,
{
    if n >= 10 {
        append_decimal(text, n / 10);
    }
    let ghost before = text@;
    text.append(digit_text(n % 10));
    proof {
        if n >= 10 {
            assert(before + seq![digit_char((n % 10) as nat)] =~= old(text)@ + decimal(n as nat));
        } else {
            assert(before + seq![digit_char(n as nat)] =~= old(text)@ + decimal(n as nat));
        }
    }
}

/// Writes `n` in decimal with at least `width` digits behind `text`.
pub fn append_decimal_padded(text: &mut String, n: u64, width: u32)
    ensures
        final(text)@ == old(text)@ + decimal_padded(n as nat, width as nat),
    decreases width,
{
    if width <= 1 {
        append_decimal(text, n);
    } else {
        append_decimal_padded(text, n / 10, width - 1);
        let ghost before = text@;
        text.append(digit_text(n % 10));
        proof {
            let shorter = decimal_padded((n / 10) as nat, (width - 1) as nat);
            assert(before + seq![digit_char((n % 10) as nat)] =~= old(text)@ + shorter.push(
                digit_char((n % 10) as nat),
            ));
        }
    }
}

/// `n` written in decimal.
pub fn decimal_string(n: u64) -> (text: String)
    ensures
        text@ == decimal(n as nat),
{
    let mut text = String::new();
    append_decimal(&mut text, n);
    assert(Seq::<char>::empty() + decimal(n as nat) =~= decimal(n as nat));
    text
}

/// Ten to the power `places`.
pub open spec fn ten_to(places: nat) -> nat
    decreases places,
{
    if places == 0 {
        1
    } else {
        10 * ten_to((places - 1) as nat)
    }
}

/// A count of the smallest steps written as a decimal fraction with `places`
/// digits behind the point: 1234 with two places is "12.34".
pub open spec fn fixed_point(steps: nat, places: nat) -> Seq<char> {
    decimal(steps / ten_to(places)) + seq!['.'] + decimal_padded(steps % ten_to(places), places)
}

/// A signed count of steps written as a decimal fraction.
pub open spec fn signed_fixed_point(steps: int, places: nat) -> Seq<char> {
    if steps < 0 {
        seq!['-'] + fixed_point((-steps) as nat, places)
    } else {
        fixed_point(steps as nat, places)
    }
}

/// Basis points as a percentage with one digit behind the point, the half
/// rounded up: 7550 is "75.5".
pub open spec fn percent_one_place(basis_points: nat) -> Seq<char> {
    fixed_point((basis_points + 5) / 10, 1)
}

/// Basis points as a percentage with two digits behind the point: 7550 is
/// "75.50".
pub open spec fn percent_two_places(basis_points: nat) -> Seq<char> {
    fixed_point(basis_points, 2)
}

/// Ten to the power `places`, for a power that fits 128 bits.
pub fn power_of_ten(places: u32) -> (power: u128)
    requires
        places <= 38,
    ensures
        power == ten_to(places as nat),
        power >= 1,
{
    assert(ten_to(38) == 100_000_000_000_000_000_000_000_000_000_000_000_000) by {
        reveal_with_fuel(ten_to, 39);
    }
    let mut power: u128 = 1;
    let mut done: u32 = 0;
    while done < places
        invariant
            done <= places <= 38,
            power == ten_to(done as nat),
            power >= 1,
            ten_to(38) == 100_000_000_000_000_000_000_000_000_000_000_000_000,
        decreases places - done,
    {
        proof {
            lemma_ten_to_monotonic((done + 1) as nat, 38);
        }
        power = power * 10;
        done += 1;
    }
    power
}

/// A higher power of ten is not smaller.
pub proof fn lemma_ten_to_monotonic(low: nat, high: nat)
    requires
        low <= high,
    ensures
        ten_to(low) <= ten_to(high),
        ten_to(low) >= 1,
    decreases high,
{
    if low < high {
        lemma_ten_to_monotonic(low, (high - 1) as nat);
    } else if low > 0 {
        lemma_ten_to_monotonic((low - 1) as nat, (high - 1) as nat);
    }
}

/// Writes `steps` behind `text` as a decimal fraction with `places` digits
/// behind the point. The places are at least one and few enough for their
/// power of ten to fit 64 bits.
pub fn append_fixed_point(text: &mut String, steps: u64, places: u32)
    requires
        1 <= places <= 19,
    ensures
        final(text)@ == old(text)@ + fixed_point(steps as nat, places as nat),
{
    proof {
        reveal_strlit(".");
        lemma_ten_to_monotonic(places as nat, 19);
        assert(ten_to(19) == 10_000_000_000_000_000_000) by {
            reveal_with_fuel(ten_to, 20);
        }
    }
    let unit = power_of_ten(places) as u64;
    append_decimal(text, steps / unit);
    text.append(".");
    append_decimal_padded(text, steps % unit, places);
    assert(text@ =~= old(text)@ + fixed_point(steps as nat, places as nat)) by {
        assert("."@ =~= seq!['.']);
    }
}

/// Writes a signed count of steps behind `text` as a decimal fraction.
pub fn append_signed_fixed_point(text: &mut String, steps: i64, places: u32)
    requires
        1 <= places <= 19,
    ensures
        final(text)@ == old(text)@ + signed_fixed_point(steps as int, places as nat),
{
    if steps < 0 {
        proof {
            reveal_strlit("-");
        }
        text.append("-");
        let size: u64 = if steps == i64::MIN {
            9_223_372_036_854_775_808u64
        } else {
            (-steps) as u64
        };
        append_fixed_point(text, size, places);
        assert(text@ =~= old(text)@ + signed_fixed_point(steps as int, places as nat)) by {
            assert("-"@ =~= seq!['-']);
        }
    } else {
        append_fixed_point(text, steps as u64, places);
    }
}

/// Writes basis points behind `text` as a percentage with one digit behind
/// the point.
pub fn append_percent_one_place(text: &mut String, basis_points: u32)
    ensures
        final(text)@ == old(text)@ + percent_one_place(basis_points as nat),
{
    append_fixed_point(text, (basis_points as u64 + 5) / 10, 1);
}

/// Writes basis points behind `text` as a percentage with two digits behind
/// the point.
pub fn append_percent_two_places(text: &mut String, basis_points: u32)
    ensures
        final(text)@ == old(text)@ + percent_two_places(basis_points as nat),
{
    append_fixed_point(text, basis_points as u64, 2);
}

/// The pieces of `parts` written one after the other.
pub open spec fn joined(parts: Seq<Seq<char>>) -> Seq<char>
    decreases parts.len(),
{
    if parts.len() == 0 {
        Seq::empty()
    } else {
        joined(parts.drop_last()) + parts.last()
    }
}

/// The texts of a list of string slices.
pub open spec fn slices(parts: Seq<&str>) -> Seq<Seq<char>> {
    parts.map_values(|part: &str| part@)
}

/// Writes the pieces of `parts` one after the other.
pub fn join(parts: &[&str]) -> (text: String)
    ensures
        text@ == joined(slices(parts@)),
{
    let mut text = String::new();
    let mut i: usize = 0;
    assert(slices(parts@).take(0) =~= Seq::empty());
    while i < parts.len()
        invariant
            i <= parts.len(),
            text@ == joined(slices(parts@).take(i as int)),
        decreases parts.len() - i,
    {
        text.append(parts[i]);
        proof {
            let next = slices(parts@).take(i + 1);
            assert(next.drop_last() =~= slices(parts@).take(i as int));
            assert(next.last() == parts@[i as int]@);
        }
        i += 1;
    }
    assert(slices(parts@).take(i as int) =~= slices(parts@));
    text
}

/// A hundredth of `n`, the half rounded up.
pub fn hundredth(n: u64) -> (part: u64)
    ensures
        part == (n + 50) / 100,
{
    if n % 100 >= 50 {
        n / 100 + 1
    } else {
        n / 100
    }
}

/// A count of steps written as a decimal fraction with `places` digits
/// behind the point.
pub fn fixed_point_string(steps: u64, places: u32) -> (text: String)
    requires
        1 <= places <= 19,
    ensures
        text@ == fixed_point(steps as nat, places as nat),
{
    let mut text = String::new();
    append_fixed_point(&mut text, steps, places);
    assert(Seq::<char>::empty() + fixed_point(steps as nat, places as nat) =~= fixed_point(
        steps as nat,
        places as nat,
    ));
    text
}

/// Basis points as a percentage with one digit behind the point.
pub fn percent_one_place_string(basis_points: u32) -> (text: String)
    ensures
        text@ == percent_one_place(basis_points as nat),
{
    let mut text = String::new();
    append_percent_one_place(&mut text, basis_points);
    assert(Seq::<char>::empty() + percent_one_place(basis_points as nat) =~= percent_one_place(
        basis_points as nat,
    ));
    text
}

/// Basis points as a percentage with two digits behind the point.
pub fn percent_two_places_string(basis_points: u32) -> (text: String)
    ensures
        text@ == percent_two_places(basis_points as nat),
{
    let mut text = String::new();
    append_percent_two_places(&mut text, basis_points);
    assert(Seq::<char>::empty() + percent_two_places(basis_points as nat) =~= percent_two_places(
        basis_points as nat,
    ));
    text
}

/// A signed count of hundredths with two digits behind the point.
pub fn signed_two_places_string(hundredths: i64) -> (text: String)
    ensures
        text@ == signed_fixed_point(hundredths as int, 2),
{
    let mut text = String::new();
    append_signed_fixed_point(&mut text, hundredths, 2);
    assert(Seq::<char>::empty() + signed_fixed_point(hundredths as int, 2) =~= signed_fixed_point(
        hundredths as int,
        2,
    ));
    text
}

/// What `str::to_lowercase` makes of a text: its lower-case equivalent.
pub uninterp spec fn lowercase(text: Seq<char>) -> Seq<char>;

/// Turns a text into lower case with `str::to_lowercase`.
///
/// Trusted: the result is the lower-case equivalent of the text, which the
/// standard library derives from the text alone; it is named by `lowercase`
/// and not spelt out.
#[verifier::external_body]
pub(crate) fn to_lowercase(text: &str) -> (lower: String)
    ensures
        lower@ == lowercase(text@),
{
    text.to_lowercase()
}

/// `text` with an underscore in place of every space.
pub open spec fn underscored(text: Seq<char>) -> Seq<char> {
    text.map_values(
        |c: char|
            if c == ' ' {
                '_'
            } else {
                c
            },
    )
}

/// `text` with an underscore in place of every space.
pub fn replace_spaces(text: &str) -> (replaced: String)
    ensures
        replaced@ == underscored(text@),
{
    proof {
        reveal_strlit("_");
    }
    let length = text.unicode_len();
    let mut replaced = String::new();
    let mut i: usize = 0;
    assert(underscored(text@).take(0) =~= Seq::empty());
    while i < length
        invariant
            i <= length,
            length == text@.len(),
            replaced@ == underscored(text@).take(i as int),
        decreases length - i,
    {
        let ghost before = replaced@;
        if text.get_char(i) == ' ' {
            replaced.append("_");
            proof {
                reveal_strlit("_");
            }
            assert("_"@ =~= seq!['_']);
        } else {
            let piece = text.substring_char(i, i + 1);
            assert(piece@ =~= seq![text@[i as int]]);
            replaced.append(piece);
        }
        assert(replaced@ =~= underscored(text@).take(i + 1)) by {
            assert(underscored(text@).take(i + 1) =~= underscored(text@).take(i as int).push(
                underscored(text@)[i as int],
            ));
        }
        i += 1;
    }
    assert(underscored(text@).take(length as int) =~= underscored(text@));
    replaced
}

/// The name that a functionality gets in generated code: in lower case,
/// with underscores for spaces.
pub open spec fn identifier(functionality: Seq<char>) -> Seq<char> {
    underscored(lowercase(functionality))
}

/// The name that a functionality gets in generated code.
pub fn identifier_of(functionality: &str) -> (name: String)
    ensures
        name@ == identifier(functionality@),
{
    let lower = to_lowercase(functionality);
    replace_spaces(lower.as_str())
}

/// A list of strings from their texts.
pub fn strings(items: &[&str]) -> (list: Vec<String>)
    ensures
        list.deep_view() == slices(items@),
{
    let mut list: Vec<String> = Vec::new();
    let mut i: usize = 0;
    while i < items.len()
        invariant
            i <= items.len(),
            list.len() == i,
            forall|j: int| 0 <= j < i ==> list@[j]@ == items@[j]@,
        decreases items.len() - i,
    {
        list.push(String::from_str(items[i]));
        i += 1;
    }
    assert(list.deep_view() =~= slices(items@));
    list
}

/// A list of the one given string.
pub fn single(only: String) -> (list: Vec<String>)
    ensures
        list.deep_view() == seq![only@],
{
    let mut list: Vec<String> = Vec::new();
    list.push(only);
    assert(list.deep_view() =~= seq![only@]);
    list
}

/// A list of the two given strings.
pub fn pair(first: &str, second: &str) -> (list: Vec<String>)
    ensures
        list.deep_view() == seq![first@, second@],
{
    let items = [first, second];
    let list = strings(&items);
    assert(slices(items@) =~= seq![first@, second@]);
    list
}

/// A list of the three given strings.
pub fn triple(first: &str, second: &str, third: &str) -> (list: Vec<String>)
    ensures
        list.deep_view() == seq![first@, second@, third@],
{
    let items = [first, second, third];
    let list = strings(&items);
    assert(slices(items@) =~= seq![first@, second@, third@]);
    list
}

/// A copy of a list of strings.
pub fn copy_strings(items: &Vec<String>) -> (copy: Vec<String>)
    ensures
        copy.deep_view() == items.deep_view(),
{
    let mut copy: Vec<String> = Vec::new();
    let mut i: usize = 0;
    while i < items.len()
        invariant
            i <= items.len(),
            copy.len() == i,
            forall|j: int| 0 <= j < i ==> copy@[j]@ == items@[j]@,
        decreases items.len() - i,
    {
        copy.push(items[i].clone());
        i += 1;
    }
    assert(copy.deep_view() =~= items.deep_view());
    copy
}

} // verus!
