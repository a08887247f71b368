//! Item times: a millisecond timestamp with a five-digit slot behind it,
//! written in a fixed-width form whose text order is the order in time.

use crate::decimal::{
    all_digits, chars_of, decimal, digit_char, digits_value, fixed_width, is_digit, is_u64_text,
    lemma_decimal, lemma_digit_char, lemma_fixed_width, parse_u64, parsed_u64, pow10,
    push_decimal, push_fixed_width, u64_text_value, unsigned_digits,
};
use crate::errors::{outcome_view, Error, Kind, KindView};
use crate::text_order::{
    lemma_text_lt_concat, lemma_text_lt_irreflexive, lemma_text_lt_single, text_lt,
};
use vstd::prelude::*;
use vstd::string::*;

verus! {

/// The largest base of an item time, in milliseconds since the epoch.
pub const MAX_BASE_MS: u64 = 9_999_999_999_999;

/// The largest slot of an item time.
pub const MAX_SLOT: u64 = 99_999;

/// The canonical text of an item time: the base in thirteen digits, a dot,
/// the slot in five digits.
pub open spec fn canonical(base_ms: nat, slot: nat) -> Seq<char> {
    fixed_width(base_ms, 13) + seq!['.'] + fixed_width(slot, 5)
}

/// The refusal of a part that is no `u64` text.
pub open spec fn invalid_u64_message(text: Seq<char>) -> Seq<char> {
    "invalid u64: '"@ + text + "'"@
}

/// The refusal of the part called `name` whose value is above its bound.
pub open spec fn too_large_message(name: Seq<char>, upper_bound: u64, value: u64) -> Seq<char> {
    "item time "@ + name + " may not be larger than "@ + decimal(upper_bound as nat) + ": '"@
        + decimal(value as nat) + "'"@
}

/// The refusal of a text with more than one dot.
pub open spec fn invalid_item_time_message(text: Seq<char>) -> Seq<char> {
    "invalid item time: '"@ + text + "'"@
}

/// What reading `text` as an integer of at most `upper_bound` gives: the
/// value, or the refusal of a text that is no `u64` or of a value above the
/// bound.
pub open spec fn bounded_int(text: Seq<char>, name: Seq<char>, upper_bound: u64) -> Result<
    u64,
    KindView,
> {
    match parsed_u64(text) {
        None => Err(KindView::IllegalParameter(invalid_u64_message(text))),
        Some(value) => if value > upper_bound {
            Err(KindView::IllegalParameter(too_large_message(name, upper_bound, value)))
        } else {
            Ok(value)
        },
    }
}

/// The base and slot texts of an item time: the whole text and `0` where it
/// has no dot, the texts before and behind the dot where it has one, and
/// nothing where it has more.
pub open spec fn item_time_parts(s: Seq<char>) -> Option<(Seq<char>, Seq<char>)> {
    match s.index_of_first('.') {
        None => Some((s, seq!['0'])),
        Some(dot) => if s.skip(dot + 1).contains('.') {
            None
        } else {
            Some((s.take(dot), s.skip(dot + 1)))
        },
    }
}

/// What normalizing the text `s` gives: its canonical form, or the first
/// refusal met when reading the parts, then the base, then the slot.
pub open spec fn normalized(s: Seq<char>) -> Result<Seq<char>, KindView> {
    match item_time_parts(s) {
        None => Err(KindView::IllegalParameter(invalid_item_time_message(s))),
        Some((base_text, slot_text)) => match bounded_int(base_text, "base ms"@, MAX_BASE_MS) {
            Err(refusal) => Err(refusal),
            Ok(base_ms) => match bounded_int(slot_text, "suffix"@, MAX_SLOT) {
                Err(refusal) => Err(refusal),
                Ok(slot) => Ok(canonical(base_ms as nat, slot as nat)),
            },
        },
    }
}

/// Whether `s` is an item time that normalizing accepts: at most one dot,
/// a base that is a `u64` text of at most [`MAX_BASE_MS`], and a slot,
/// where there is a dot, that is a `u64` text of at most [`MAX_SLOT`].
pub open spec fn is_item_time(s: Seq<char>) -> bool {
    match item_time_parts(s) {
        None => false,
        Some((base_text, slot_text)) => {
            &&& is_u64_text(base_text)
            &&& u64_text_value(base_text) <= MAX_BASE_MS
            &&& is_u64_text(slot_text)
            &&& u64_text_value(slot_text) <= MAX_SLOT
        },
    }
}

/// Reads `int_str` as an integer of at most `upper_bound`. `name` says in a
/// refusal which part of the item time was too large.
pub fn parse_bounded_int(int_str: &str, name: &str, upper_bound: u64) -> (r: Result<u64, Error>)
    ensures
        match r {
            Ok(value) => bounded_int(int_str@, name@, upper_bound) == Ok::<u64, KindView>(value),
            Err(e) => bounded_int(int_str@, name@, upper_bound) == Err::<u64, KindView>(e@),
        },
{
    match parse_u64(int_str) {
        None => {
            let mut msg = String::from_str("invalid u64: '");
            msg.append(int_str);
            msg.append("'");
            Err(Error { kind: Kind::IllegalParameter(msg) })
        },
        Some(value) => {
            if value > upper_bound {
                let mut msg = String::from_str("item time ");
                msg.append(name);
                msg.append(" may not be larger than ");
                push_decimal(&mut msg, upper_bound);
                msg.append(": '");
                push_decimal(&mut msg, value);
                msg.append("'");
                Err(Error { kind: Kind::IllegalParameter(msg) })
            } else {
                Ok(value)
            }
        },
    }
}

/// Writes an item time in canonical form.
fn format_item_time(base_ms: u64, slot: u64) -> (text: String)
    ensures
        text@ == canonical(base_ms as nat, slot as nat),
{
    let mut text = String::new();
    push_fixed_width(&mut text, base_ms, 13);
    text.append(".");
    push_fixed_width(&mut text, slot, 5);
    proof {
        reveal_strlit(".");
    }
    text
}

/// Accepts an item time in any of its forms and returns it in canonical
/// form: `"1234"`, `"1661564013555"`, `"1661564013555.00003"` and
/// `"123456.789"` are all accepted.
pub fn normalize_item_time(item_time: &str) -> (r: Result<String, Error>)
    ensures
        outcome_view(r) == normalized(item_time@),
        r is Ok <==> is_item_time(item_time@),
{
    let chars = chars_of(item_time);
    let n: usize = chars.len();
    let mut dot: usize = 0;
    while dot < n && chars[dot] != '.'
        invariant
            dot <= n,
            n == chars@.len(),
            forall|k: int| 0 <= k < dot ==> chars@[k] != '.',
        decreases n - dot,
    {
        dot += 1;
    }
    proof {
        item_time@.index_of_first_ensures('.');
    }
    if dot == n {
        proof {
            reveal_strlit("0");
            assert("0"@ =~= seq!['0']);
        }
        let base_ms = parse_bounded_int(item_time, "base ms", MAX_BASE_MS)?;
        let slot = parse_bounded_int("0", "suffix", MAX_SLOT)?;
        return Ok(format_item_time(base_ms, slot));
    }
    let mut next: usize = dot + 1;
    while next < n && chars[next] != '.'
        invariant
            dot < next <= n,
            n == chars@.len(),
            forall|k: int| dot < k < next ==> chars@[k] != '.',
        decreases n - next,
    {
        next += 1;
    }
    let ghost rest = item_time@.skip(dot + 1);
    if next < n {
        assert(rest[next - dot - 1] == '.');
        let mut msg = String::from_str("invalid item time: '");
        msg.append(item_time);
        msg.append("'");
        return Err(Error { kind: Kind::IllegalParameter(msg) });
    }
    assert(!rest.contains('.')) by {
        if rest.contains('.') {
            let k = rest.index_of('.');
            assert(chars@[k + dot + 1] == '.');
        }
    }
    let base_str = item_time.substring_char(0, dot);
    let slot_str = item_time.substring_char(dot + 1, n);
    let base_ms = parse_bounded_int(base_str, "base ms", MAX_BASE_MS)?;
    let slot = parse_bounded_int(slot_str, "suffix", MAX_SLOT)?;
    Ok(format_item_time(base_ms, slot))
}

/// The same as [`normalize_item_time`], for a timestamp held as an integer
/// of milliseconds: the slot is zero.
pub fn normalize_item_time_ms(item_time_ms: u64) -> (r: Result<String, Error>)
    ensures
        outcome_view(r) == normalized(decimal(item_time_ms as nat)),
        item_time_ms <= MAX_BASE_MS ==> outcome_view(r) == Ok::<Seq<char>, KindView>(
            canonical(item_time_ms as nat, 0),
        ),
        item_time_ms > MAX_BASE_MS ==> outcome_view(r) == Err::<Seq<char>, KindView>(
            KindView::IllegalParameter(too_large_message("base ms"@, MAX_BASE_MS, item_time_ms)),
        ),
{
    let mut text = String::new();
    push_decimal(&mut text, item_time_ms);
    proof {
        let digits = decimal(item_time_ms as nat);
        lemma_decimal(item_time_ms as nat);
        lemma_digits_are_plain(digits);
        digits.index_of_first_ensures('.');
        lemma_digits_are_plain(seq!['0']);
        assert(digits_value(seq!['0']) == 0) by {
            reveal_with_fuel(digits_value, 2);
        }
        lemma_fixed_width(0, 5);
    }
    normalize_item_time(text.as_str())
}

/// Normalizing succeeds on the item times and on nothing else: it fails on
/// a text with two or more dots, on a base or a slot that is no number, and
/// on a base or a slot above its bound.
pub proof fn lemma_normalize_accepts_item_times(s: Seq<char>)
    ensures
        normalized(s) is Ok <==> is_item_time(s),
        s.index_of_first('.') matches Some(dot) && s.skip(dot + 1).contains('.') ==> normalized(s)
            == Err::<Seq<char>, KindView>(
            KindView::IllegalParameter(invalid_item_time_message(s)),
        ),
        item_time_parts(s) matches Some(parts) ==> {
            &&& !is_u64_text(parts.0) ==> normalized(s) == Err::<Seq<char>, KindView>(
                KindView::IllegalParameter(invalid_u64_message(parts.0)),
            )
            &&& is_u64_text(parts.0) && u64_text_value(parts.0) > MAX_BASE_MS ==> normalized(s)
                is Err
            &&& is_u64_text(parts.0) && u64_text_value(parts.0) <= MAX_BASE_MS && !is_u64_text(
                parts.1,
            ) ==> normalized(s) == Err::<Seq<char>, KindView>(
                KindView::IllegalParameter(invalid_u64_message(parts.1)),
            )
            &&& is_u64_text(parts.0) && u64_text_value(parts.0) <= MAX_BASE_MS && is_u64_text(
                parts.1,
            ) && u64_text_value(parts.1) > MAX_SLOT ==> normalized(s) is Err
        },
{
}

/// A string of digits holds no dot and no sign.
pub proof fn lemma_digits_are_plain(s: Seq<char>)
    requires
        all_digits(s),
    ensures
        !s.contains('.'),
        unsigned_digits(s) == s,
{
    if s.contains('.') {
        assert(is_digit(s[s.index_of('.')]));
    }
    if s.len() > 0 {
        assert(is_digit(s[0]));
    }
}

/// A text with one dot has the texts before and behind the dot as its parts.
pub proof fn lemma_parts_of_dotted(a: Seq<char>, b: Seq<char>)
    requires
        !a.contains('.'),
        !b.contains('.'),
    ensures
        item_time_parts(a + seq!['.'] + b) == Some((a, b)),
{
    let s = a + seq!['.'] + b;
    let dot = a.len() as int;
    assert(s[dot] == '.');
    s.index_of_first_ensures('.');
    let found = s.index_of_first('.').unwrap();
    if found < dot {
        assert(a[found] == '.');
    }
    assert(s.take(dot) == a);
    assert(s.skip(dot + 1) == b);
}

/// Texts of digits of one width compare as the numbers that they denote.
pub proof fn lemma_fixed_width_order(n1: nat, n2: nat, width: nat)
    requires
        n1 < pow10(width),
        n2 < pow10(width),
    ensures
        text_lt(fixed_width(n1, width), fixed_width(n2, width)) <==> n1 < n2,
        fixed_width(n1, width) == fixed_width(n2, width) <==> n1 == n2,
    decreases width,
{
    lemma_fixed_width(n1, width);
    lemma_fixed_width(n2, width);
    if width == 0 {
        lemma_text_lt_irreflexive(fixed_width(n1, width));
    } else {
        let w = (width - 1) as nat;
        let upper1 = fixed_width(n1 / 10, w);
        let upper2 = fixed_width(n2 / 10, w);
        let d1 = digit_char((n1 % 10) as int);
        let d2 = digit_char((n2 % 10) as int);
        lemma_fixed_width(n1 / 10, w);
        lemma_fixed_width(n2 / 10, w);
        lemma_fixed_width_order(n1 / 10, n2 / 10, w);
        lemma_digit_char((n1 % 10) as int);
        lemma_digit_char((n2 % 10) as int);
        lemma_text_lt_concat(upper1, seq![d1], upper2, seq![d2]);
        lemma_text_lt_single(d1, d2);
        assert(fixed_width(n1, width) == upper1 + seq![d1]);
        assert(fixed_width(n2, width) == upper2 + seq![d2]);
    }
}

/// The canonical text of a time reads back as that time, and is its own
/// normal form.
pub proof fn lemma_canonical_is_fixed_point(base_ms: nat, slot: nat)
    requires
        base_ms <= MAX_BASE_MS,
        slot <= MAX_SLOT,
    ensures
        is_item_time(canonical(base_ms, slot)),
        item_time_parts(canonical(base_ms, slot)) == Some(
            (fixed_width(base_ms, 13), fixed_width(slot, 5)),
        ),
        u64_text_value(fixed_width(base_ms, 13)) == base_ms,
        u64_text_value(fixed_width(slot, 5)) == slot,
        normalized(canonical(base_ms, slot)) == Ok::<Seq<char>, KindView>(
            canonical(base_ms, slot),
        ),
{
    let base_text = fixed_width(base_ms, 13);
    let slot_text = fixed_width(slot, 5);
    assert(pow10(13) == 10_000_000_000_000 && pow10(5) == 100_000) by {
        reveal_with_fuel(pow10, 14);
    }
    lemma_fixed_width(base_ms, 13);
    lemma_fixed_width(slot, 5);
    lemma_digits_are_plain(base_text);
    lemma_digits_are_plain(slot_text);
    lemma_parts_of_dotted(base_text, slot_text);
}

/// Normalizing the plain decimal renderings of a base and a slot, with a dot
/// between them, gives the canonical text of the two; the rendering of a
/// base alone gives the canonical text with slot zero.
pub proof fn lemma_normalize_of_decimal(base_ms: nat, slot: nat)
    requires
        base_ms <= MAX_BASE_MS,
        slot <= MAX_SLOT,
    ensures
        normalized(decimal(base_ms) + seq!['.'] + decimal(slot)) == Ok::<Seq<char>, KindView>(
            canonical(base_ms, slot),
        ),
        normalized(decimal(base_ms)) == Ok::<Seq<char>, KindView>(canonical(base_ms, 0)),
{
    let base_text = decimal(base_ms);
    let slot_text = decimal(slot);
    lemma_decimal(base_ms);
    lemma_decimal(slot);
    lemma_digits_are_plain(base_text);
    lemma_digits_are_plain(slot_text);
    lemma_parts_of_dotted(base_text, slot_text);
    base_text.index_of_first_ensures('.');
    lemma_decimal(0);
    lemma_digits_are_plain(seq!['0']);
}

/// Normalizing is idempotent: what it returns is a text that it accepts
/// and returns unchanged, and that text is the canonical form of the base
/// and the slot that the input denotes.
pub proof fn lemma_normalize_is_idempotent(s: Seq<char>)
    requires
        normalized(s) is Ok,
    ensures
        is_item_time(s),
        normalized(s)->Ok_0 == canonical(
            u64_text_value(item_time_parts(s)->Some_0.0),
            u64_text_value(item_time_parts(s)->Some_0.1),
        ),
        normalized(normalized(s)->Ok_0) == normalized(s),
{
    let parts = item_time_parts(s)->Some_0;
    lemma_canonical_is_fixed_point(u64_text_value(parts.0), u64_text_value(parts.1));
}

/// Canonical texts compare as the times that they stand for: by the base,
/// then by the slot. Two of them are the same text only for the same time.
pub proof fn lemma_canonical_order_is_time_order(base1: nat, slot1: nat, base2: nat, slot2: nat)
    requires
        base1 <= MAX_BASE_MS,
        slot1 <= MAX_SLOT,
        base2 <= MAX_BASE_MS,
        slot2 <= MAX_SLOT,
    ensures
        text_lt(canonical(base1, slot1), canonical(base2, slot2)) <==> base1 < base2 || (base1
            == base2 && slot1 < slot2),
        canonical(base1, slot1) == canonical(base2, slot2) <==> base1 == base2 && slot1 == slot2,
{
    assert(pow10(13) == 10_000_000_000_000 && pow10(5) == 100_000) by {
        reveal_with_fuel(pow10, 14);
    }
    let b1 = fixed_width(base1, 13);
    let b2 = fixed_width(base2, 13);
    let s1 = fixed_width(slot1, 5);
    let s2 = fixed_width(slot2, 5);
    let dot = seq!['.'];
    lemma_fixed_width(base1, 13);
    lemma_fixed_width(base2, 13);
    lemma_fixed_width(slot1, 5);
    lemma_fixed_width(slot2, 5);
    lemma_fixed_width_order(base1, base2, 13);
    lemma_fixed_width_order(slot1, slot2, 5);
    lemma_text_lt_concat(b1, dot, b2, dot);
    lemma_text_lt_irreflexive(dot);
    lemma_text_lt_concat(b1 + dot, s1, b2 + dot, s2);
    assert(b1 + dot == b2 + dot <==> b1 == b2) by {
        assert((b1 + dot).take(13) == b1);
        assert((b2 + dot).take(13) == b2);
    }
    assert(canonical(base1, slot1) == canonical(base2, slot2) <==> b1 == b2 && s1 == s2) by {
        assert(canonical(base1, slot1).take(13) == b1);
        assert(canonical(base2, slot2).take(13) == b2);
        assert(canonical(base1, slot1).skip(14) == s1);
        assert(canonical(base2, slot2).skip(14) == s2);
    }
}

} // verus!
