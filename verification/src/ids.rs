use vstd::prelude::*;

verus! {

/// A 128-bit identifier of a project, a dataset, a datapoint or a pipeline node.
#[derive(Clone, Copy, Debug, PartialEq, Eq, Hash, Structural)]
pub struct Uuid {
    pub bits: u128,
}

/// The lower-case hexadecimal digit of a value below sixteen.
pub open spec fn hex_digit(value: u128) -> char {
    if value < 10 {
        (value + '0' as u128) as char
    } else {
        (value - 10 + 'a' as u128) as char
    }
}

/// The four bits of `bits` that digit `place` shows; digit 0 is the most significant of the 32.
pub open spec fn nibble(bits: u128, place: int) -> u128 {
    (bits >> ((124 - 4 * place) as u128)) & 0xf
}

/// Whether position `at` of the hyphenated form holds a hyphen.
pub open spec fn is_hyphen(at: int) -> bool {
    at == 8 || at == 13 || at == 18 || at == 23
}

/// The digit that stands at position `at` of the hyphenated form: `at`, less the hyphens
/// that stand before it.
pub open spec fn digit_place(at: int) -> int {
    if at < 8 {
        at
    } else if at < 13 {
        at - 1
    } else if at < 18 {
        at - 2
    } else if at < 23 {
        at - 3
    } else {
        at - 4
    }
}

/// The hyphenated lower-case text of an identifier, such as
/// `67e55044-10b1-426f-9247-bb680e5fe0c8`.
pub open spec fn hyphenated(bits: u128) -> Seq<char> {
    Seq::new(
        36,
        |at: int|
            if is_hyphen(at) {
                '-'
            } else {
                hex_digit(nibble(bits, digit_place(at)))
            },
    )
}

/// Calls `uuid::Uuid::from_u128` and its `to_string`. Claims that the text is the 36
/// characters of the hyphenated form: the 32 digits of the value, most significant first, in
/// lower case, in groups of 8, 4, 4, 4 and 12 with a hyphen between two groups.
#[verifier::external_body]
fn hyphenated_text(bits: u128) -> (text: String)
    ensures
        text@ == hyphenated(bits),
{
    uuid::Uuid::from_u128(bits).to_string()
}

impl Uuid {
    /// The identifier as text, in hyphenated lower-case form.
    pub fn to_string(&self) -> (text: String)
        ensures
            text@ == hyphenated(self.bits),
    {
        hyphenated_text(self.bits)
    }
}

/// Two values below sixteen that share a digit are equal.
proof fn lemma_hex_digit_injective(a: u128, b: u128)
    requires
        a < 16,
        b < 16,
        hex_digit(a) == hex_digit(b),
    ensures
        a == b,
{
}

/// Two values that agree in the digits up to `place` agree in the bits that those digits show.
proof fn lemma_leading_digits_determine(x: u128, y: u128, place: nat)
    requires
        place < 32,
        forall|at: int| 0 <= at < 32 ==> nibble(x, at) == #[trigger] nibble(y, at),
    ensures
        x >> ((124 - 4 * place) as u128) == y >> ((124 - 4 * place) as u128),
    decreases place,
{
    assert(nibble(x, place as int) == nibble(y, place as int));
    if place == 0 {
        assert((x >> 124u128) & 0xf == x >> 124u128) by (bit_vector);
        assert((y >> 124u128) & 0xf == y >> 124u128) by (bit_vector);
    } else {
        lemma_leading_digits_determine(x, y, (place - 1) as nat);
        let low = (124 - 4 * place) as u128;
        let high = (128 - 4 * place) as u128;
        assert(x >> low == y >> low) by (bit_vector)
            requires
                low <= 120,
                high == low + 4,
                x >> high == y >> high,
                (x >> low) & 0xf == (y >> low) & 0xf,
        ;
    }
}

/// Two identifiers with the same text are the same identifier, so a name or a filter that
/// carries the text of one identifier never stands for another.
pub proof fn law_text_identifies(a: Uuid, b: Uuid)
    requires
        hyphenated(a.bits) == hyphenated(b.bits),
    ensures
        a == b,
{
    let x = a.bits;
    let y = b.bits;
    assert forall|place: int| 0 <= place < 32 implies nibble(x, place) == #[trigger] nibble(
        y,
        place,
    ) by {
        let at: int = if place < 8 {
            place
        } else if place < 12 {
            place + 1
        } else if place < 16 {
            place + 2
        } else if place < 20 {
            place + 3
        } else {
            place + 4
        };
        assert(digit_place(at) == place && !is_hyphen(at));
        assert(hyphenated(x)[at] == hyphenated(y)[at]);
        let shift = (124 - 4 * place) as u128;
        assert((x >> shift) & 0xf < 16) by (bit_vector);
        assert((y >> shift) & 0xf < 16) by (bit_vector);
        lemma_hex_digit_injective(nibble(x, place), nibble(y, place));
    }
    lemma_leading_digits_determine(x, y, 31);
    assert(x >> 0u128 == x && y >> 0u128 == y) by (bit_vector);
}

/// The value of a lower-case hexadecimal digit.
pub open spec fn digit_value(digit: char) -> int {
    if '0' <= digit <= '9' {
        digit as int - '0' as int
    } else {
        digit as int - 'a' as int + 10
    }
}

/// The number that hexadecimal text stands for. Hyphens are passed over.
pub open spec fn number_read(text: Seq<char>) -> int
    decreases text.len(),
{
    if text.len() == 0 {
        0
    } else if text.last() == '-' {
        number_read(text.drop_last())
    } else {
        16 * number_read(text.drop_last()) + digit_value(text.last())
    }
}

/// The digits of an identifier up to some position stand for its leading bits.
proof fn lemma_leading_number(bits: u128, at: nat)
    requires
        at <= 36,
    ensures
        number_read(hyphenated(bits).take(at as int)) == (if at == 0 {
            0
        } else {
            (bits >> ((124 - 4 * digit_place(
                if is_hyphen(at - 1) {
                    at - 2
                } else {
                    at - 1
                },
            )) as u128)) as int
        }),
    decreases at,
{
    if at > 0 {
        let text = hyphenated(bits).take(at as int);
        let last = at - 1;
        lemma_leading_number(bits, last as nat);
        assert(text.drop_last() =~= hyphenated(bits).take(last));
        assert(text.last() == hyphenated(bits)[last]);
        if !is_hyphen(last) {
            let place = digit_place(last);
            let low = (124 - 4 * place) as u128;
            assert((bits >> low) & 0xf < 16) by (bit_vector);
            let shown = nibble(bits, place);
            assert(digit_value(hex_digit(shown)) == shown);
            assert(hex_digit(shown) != '-');
            if last == 0 {
                assert((bits >> 124u128) & 0xf == bits >> 124u128) by (bit_vector);
            } else {
                let high = (128 - 4 * place) as u128;
                assert(bits >> low == 16 * (bits >> high) + ((bits >> low) & 0xf)) by (bit_vector)
                    requires
                        low <= 120,
                        high == low + 4,
                ;
            }
        }
    }
}

/// The text of an identifier is its number in 32 lower-case hexadecimal digits, in groups of 8,
/// 4, 4, 4 and 12 with a hyphen between two groups: read as a number it gives the identifier
/// back.
pub proof fn law_text_reads_back(id: Uuid, text: String)
    requires
        call_ensures(Uuid::to_string, (&id,), text),
    ensures
        text@.len() == 36,
        number_read(text@) == id.bits,
        forall|at: int|
            0 <= at < 36 ==> if at == 8 || at == 13 || at == 18 || at == 23 {
                #[trigger] text@[at] == '-'
            } else {
                '0' <= text@[at] <= '9' || 'a' <= text@[at] <= 'f'
            },
{
    let bits = id.bits;
    lemma_leading_number(bits, 36);
    assert(text@.take(36) =~= text@);
    assert(bits >> 0u128 == bits) by (bit_vector);
    assert forall|at: int| 0 <= at < 36 implies if at == 8 || at == 13 || at == 18 || at == 23 {
        #[trigger] text@[at] == '-'
    } else {
        '0' <= text@[at] <= '9' || 'a' <= text@[at] <= 'f'
    } by {
        let shift = (124 - 4 * digit_place(at)) as u128;
        assert((bits >> shift) & 0xf < 16) by (bit_vector);
    }
}

} // verus!
