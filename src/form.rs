use vstd::prelude::*;
use vstd::utf8::encode_utf8;

verus! {

/// A byte that form encoding leaves as it is: ASCII letters, digits and `*-._`.
pub open spec fn is_unreserved(b: u8) -> bool {
    (65 <= b && b <= 90) || (97 <= b && b <= 122) || (48 <= b && b <= 57) || b == 42 || b == 45
        || b == 46 || b == 95
}

/// The uppercase hexadecimal digit (as an ASCII byte) of a value below sixteen.
pub open spec fn upper_hex_digit(n: u8) -> u8 {
    if n < 10 {
        (n + 48) as u8
    } else {
        (n + 55) as u8
    }
}

/// How one byte is written in a form body: as itself, a space as `+`, any
/// other byte as `%` and two uppercase hexadecimal digits.
pub open spec fn escape_byte(b: u8) -> Seq<u8> {
    if is_unreserved(b) {
        seq![b]
    } else if b == 32 {
        seq![43u8]
    } else {
        seq![37u8, upper_hex_digit(b / 16), upper_hex_digit(b % 16)]
    }
}

/// The form encoding of a byte string.
pub open spec fn escape(s: Seq<u8>) -> Seq<u8>
    decreases s.len(),
{
    if s.len() == 0 {
        Seq::empty()
    } else {
        escape(s.drop_last()) + escape_byte(s.last())
    }
}

/// `key=value`, both form encoded from their UTF-8 bytes.
pub open spec fn pair_text(field: (Seq<char>, Seq<char>)) -> Seq<u8> {
    escape(encode_utf8(field.0)) + seq![61u8] + escape(encode_utf8(field.1))
}

/// The `application/x-www-form-urlencoded` body of a list of fields: the
/// pairs in order, joined by `&`.
pub open spec fn form_body(fields: Seq<(Seq<char>, Seq<char>)>) -> Seq<u8>
    decreases fields.len(),
{
    if fields.len() == 0 {
        Seq::empty()
    } else if fields.len() == 1 {
        pair_text(fields[0])
    } else {
        form_body(fields.drop_last()) + seq![38u8] + pair_text(fields.last())
    }
}

/// Whether `part` stands somewhere in `whole`.
pub open spec fn holds(whole: Seq<u8>, part: Seq<u8>) -> bool {
    exists|a: int| 0 <= a && a + part.len() <= whole.len() && #[trigger] whole.subrange(a, a + part.len()) == part
}

/// Every field of a request stands in its body as `key=value`.
pub proof fn lemma_body_holds_field(fields: Seq<(Seq<char>, Seq<char>)>, k: int)
    requires
        0 <= k < fields.len(),
    ensures
        holds(form_body(fields), pair_text(fields[k])),
    decreases fields.len(),
{
    let p = pair_text(fields[k]);
    let b = form_body(fields);
    if fields.len() == 1 {
        let a: int = 0;
        assert(b.subrange(a, a + p.len()) =~= p);
    } else if k == fields.len() - 1 {
        let a = form_body(fields.drop_last()).len() as int + 1;
        assert(b.subrange(a, a + p.len()) =~= p);
    } else {
        let rest = fields.drop_last();
        assert(rest[k] == fields[k]);
        lemma_body_holds_field(rest, k);
        let prefix = form_body(rest);
        let a = choose|a: int|
            0 <= a && a + p.len() <= prefix.len() && #[trigger] prefix.subrange(a, a + p.len()) == p;
        assert(b.subrange(a, a + p.len()) =~= prefix.subrange(a, a + p.len()));
        assert(b.subrange(a, a + p.len()) == p);
    }
}

/// The fields of a request, as text.
pub open spec fn fields_view(fields: Seq<(String, String)>) -> Seq<(Seq<char>, Seq<char>)> {
    fields.map_values(|p: (String, String)| (p.0@, p.1@))
}

/// The named fields of one call, in the order they are sent.
#[derive(Debug, Clone)]
pub struct FormRequest {
    pub fields: Vec<(String, String)>,
}

impl View for FormRequest {
    type V = Seq<(Seq<char>, Seq<char>)>;

    open spec fn view(&self) -> Seq<(Seq<char>, Seq<char>)> {
        fields_view(self.fields@)
    }
}

/// Appends the form encoding of `s` to `out`.
fn push_escaped(out: &mut Vec<u8>, s: &str)
    ensures
        final(out)@ == old(out)@ + escape(encode_utf8(s@)),
{
    let bytes = s.as_bytes();
    let ghost start = out@;
    let mut i: usize = 0;
    while i < bytes.len()
        invariant
            i <= bytes@.len(),
            bytes@ == encode_utf8(s@),
            out@ == start + escape(bytes@.subrange(0, i as int)),
        decreases bytes@.len() - i,
    {
        let b = bytes[i];
        let ghost before = out@;
        if (65 <= b && b <= 90) || (97 <= b && b <= 122) || (48 <= b && b <= 57) || b == 42 || b
            == 45 || b == 46 || b == 95 {
            out.push(b);
        } else if b == 32 {
            out.push(43);
        } else {
            let hi = b / 16;
            let lo = b % 16;
            out.push(37);
            out.push(if hi < 10 { hi + 48 } else { hi + 55 });
            out.push(if lo < 10 { lo + 48 } else { lo + 55 });
        }
        proof {
            let next = bytes@.subrange(0, i + 1);
            assert(next.drop_last() =~= bytes@.subrange(0, i as int));
            assert(out@ =~= before + escape_byte(b));
        }
        i = i + 1;
    }
    assert(bytes@.subrange(0, bytes@.len() as int) =~= bytes@);
}

impl FormRequest {
    /// The request body: every field as `key=value`, form encoded, joined by `&`.
    pub fn body(&self) -> (r: Vec<u8>)
        ensures
            r@ == form_body(self@),
    {
        let mut out: Vec<u8> = Vec::new();
        let mut i: usize = 0;
        while i < self.fields.len()
            invariant
                i <= self.fields@.len(),
                out@ == form_body(self@.subrange(0, i as int)),
            decreases self.fields@.len() - i,
        {
            let ghost before = out@;
            if i > 0 {
                out.push(38);
            }
            push_escaped(&mut out, self.fields[i].0.as_str());
            out.push(61);
            push_escaped(&mut out, self.fields[i].1.as_str());
            proof {
                let next = self@.subrange(0, i + 1);
                assert(next.drop_last() =~= self@.subrange(0, i as int));
                assert(next.last() == self@[i as int]);
                if i == 0 {
                    assert(out@ =~= pair_text(next[0]));
                } else {
                    assert(out@ =~= before + seq![38u8] + pair_text(next.last()));
                }
            }
            i = i + 1;
        }
        assert(self@.subrange(0, self.fields@.len() as int) =~= self@);
        out
    }
}

} // verus!
