use vstd::prelude::*;

verus! {

/// How many digits a room identifier has.
pub const ROOM_ID_LEN: usize = 10;

/// The character that writes a decimal digit.
pub open spec fn digit_char(d: u8) -> char
    recommends
        d <= 9,
{
    (48 + d) as char
}

/// The text of a sequence of decimal digits.
pub open spec fn digits_text(digits: Seq<u8>) -> Seq<char> {
    digits.map_values(|d: u8| digit_char(d))
}

/// Whether a text is a room identifier: `ROOM_ID_LEN` characters, each a decimal digit.
pub open spec fn is_room_id(id: Seq<char>) -> bool {
    &&& id.len() == ROOM_ID_LEN
    &&& forall|i: int| 0 <= i < id.len() ==> '0' <= #[trigger] id[i] <= '9'
}

/// Calls `rand::random_range(0..=9)`, which draws from the thread-local generator.
/// The range is not empty, and the sampler returns the low end plus an offset below
/// the range's size, so the digit is at most 9; which digit comes is chance, so nothing
/// more is stated. The call panics only when the operating system's random source
/// cannot seed the generator.
#[verifier::external_body]
fn random_digit() -> (d: u8)
    ensures
        d <= 9,
{
    rand::random_range(0u8..=9)
}

fn digit_str(d: u8) -> (s: &'static str)
    requires
        d <= 9,
    ensures
        s@ == seq![digit_char(d)],
{
    proof {
        reveal_strlit("0");
        reveal_strlit("1");
        reveal_strlit("2");
        reveal_strlit("3");
        reveal_strlit("4");
        reveal_strlit("5");
        reveal_strlit("6");
        reveal_strlit("7");
        reveal_strlit("8");
        reveal_strlit("9");
    }
    match d {
        0 => "0",
        1 => "1",
        2 => "2",
        3 => "3",
        4 => "4",
        5 => "5",
        6 => "6",
        7 => "7",
        8 => "8",
        _ => "9",
    }
}

/// Writes a sequence of decimal digits as text.
pub fn room_id_from_digits(digits: &[u8]) -> (id: String)
    requires
        forall|i: int| 0 <= i < digits@.len() ==> digits@[i] <= 9,
    ensures
        id@ == digits_text(digits@),
{
    let mut id = String::new();
    let mut i: usize = 0;
    while i < digits.len()
        invariant
            i <= digits.len(),
            forall|j: int| 0 <= j < digits@.len() ==> digits@[j] <= 9,
            id@ == digits_text(digits@.subrange(0, i as int)),
        decreases digits.len() - i,
    {
        let s = digit_str(digits[i]);
        id.append(s);
        i = i + 1;
        assert(digits_text(digits@.subrange(0, i as int)) == digits_text(
            digits@.subrange(0, i - 1),
        ) + seq![digit_char(digits@[i - 1])]);
    }
    assert(digits@.subrange(0, digits@.len() as int) == digits@);
    id
}

/// A fresh room identifier: `ROOM_ID_LEN` random decimal digits.
pub fn generate_room_id() -> (id: String)
    ensures
        is_room_id(id@),
{
    let mut digits: Vec<u8> = Vec::new();
    let mut i: usize = 0;
    while i < ROOM_ID_LEN
        invariant
            i <= ROOM_ID_LEN,
            digits@.len() == i,
            forall|j: int| 0 <= j < digits@.len() ==> digits@[j] <= 9,
        decreases ROOM_ID_LEN - i,
    {
        let d = random_digit();
        digits.push(d);
        i = i + 1;
    }
    let id = room_id_from_digits(digits.as_slice());
    assert forall|j: int| 0 <= j < id@.len() implies '0' <= #[trigger] id@[j] <= '9' by {
        assert(id@[j] == digit_char(digits@[j]));
        let d = digits@[j];
        assert(48 <= 48 + d <= 57);
    }
    id
}

/// Different digit sequences are written as different identifiers: two rooms whose
/// drawn digits differ get different identifiers.
pub proof fn lemma_digits_text_injective(a: Seq<u8>, b: Seq<u8>)
    requires
        forall|i: int| 0 <= i < a.len() ==> a[i] <= 9,
        forall|i: int| 0 <= i < b.len() ==> b[i] <= 9,
        digits_text(a) == digits_text(b),
    ensures
        a == b,
{
    assert(a.len() == digits_text(a).len());
    assert forall|i: int| 0 <= i < a.len() implies a[i] == b[i] by {
        assert(digits_text(a)[i] == digit_char(a[i]));
        assert(digits_text(b)[i] == digit_char(b[i]));
        let x = a[i];
        let y = b[i];
        assert((48 + x) as char == (48 + y) as char);
        assert(((48 + x) as char) as int == 48 + x);
        assert(((48 + y) as char) as int == 48 + y);
    }
    assert(a =~= b);
}

}
