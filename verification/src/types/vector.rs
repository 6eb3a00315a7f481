//! The homogeneous sequence wire form: a VarInt count followed by that
//! many back-to-back encodings, order preserved. The one element type this
//! protocol carries in sequences is the string.

use vstd::prelude::*;

use crate::cursor::Cursor;
use crate::error::FormatError;
use crate::types::string::{string_dec, string_enc, string_fits, MCString};
use crate::types::varint::{decode_varint, encode_varint, varint_dec, varint_enc};

verus! {

/// The views of a sequence of string values.
pub open spec fn seq_views(items: Seq<MCString>) -> Seq<Seq<char>> {
    items.map_values(|m: MCString| m@)
}

/// The back-to-back encodings of the items, without the count.
pub open spec fn string_seq_enc_items(items: Seq<Seq<char>>) -> Seq<u8>
    decreases items.len(),
{
    if items.len() == 0 {
        Seq::empty()
    } else {
        string_enc(items[0]) + string_seq_enc_items(items.drop_first())
    }
}

/// Whether every item fits the wire and the count fits a VarInt.
pub open spec fn string_seq_fits(items: Seq<Seq<char>>) -> bool {
    items.len() <= 0x7fff_ffff && (forall|i: int|
        0 <= i < items.len() ==> string_fits(#[trigger] items[i]))
}

/// The wire bytes of a sequence: its count as a VarInt, then each item.
pub open spec fn string_seq_enc(items: Seq<Seq<char>>) -> Seq<u8> {
    varint_enc(items.len() as u32) + string_seq_enc_items(items)
}

/// `n` items and their consumed length read from the front of `b`.
pub open spec fn string_seq_dec_items(b: Seq<u8>, n: int) -> Option<(Seq<Seq<char>>, int)>
    decreases n,
{
    if n <= 0 {
        Some((Seq::empty(), 0))
    } else {
        match string_dec(b) {
            Some(q) => match string_seq_dec_items(b.subrange(q.1, b.len() as int), n - 1) {
                Some(t) => Some((seq![q.0] + t.0, q.1 + t.1)),
                None => None,
            },
            None => None,
        }
    }
}

/// The items and consumed length read from the front of `b`: a count, then
/// that many item encodings.
pub open spec fn string_seq_dec(b: Seq<u8>) -> Option<(Seq<Seq<char>>, int)> {
    match varint_dec(b) {
        Some(p) => if p.0 <= 0x7fff_ffff {
            match string_seq_dec_items(b.subrange(p.1, b.len() as int), p.0 as int) {
                Some(t) => Some((t.0, p.1 + t.1)),
                None => None,
            }
        } else {
            None
        },
        None => None,
    }
}

/// Growing an item prefix by one extends its encoding by that item's bytes.
proof fn lemma_enc_items_snoc(items: Seq<Seq<char>>, i: int)
    requires
        0 <= i < items.len(),
    ensures
        string_seq_enc_items(items.subrange(0, i + 1)) == string_seq_enc_items(
            items.subrange(0, i),
        ) + string_enc(items[i]),
    decreases i,
{
    if i == 0 {
        let s01 = items.subrange(0, 1);
        assert(s01.drop_first() =~= Seq::<Seq<char>>::empty());
        assert(items.subrange(0, 0) =~= Seq::<Seq<char>>::empty());
        assert(string_seq_enc_items(s01.drop_first()) =~= Seq::<u8>::empty());
        assert(s01[0] == items[0]);
        assert(string_seq_enc_items(s01) =~= string_enc(items[0]) + Seq::<u8>::empty());
        assert(string_seq_enc_items(s01) =~= string_enc(items[0]));
        assert(string_seq_enc_items(items.subrange(0, 0)) + string_enc(items[0]) =~= string_enc(
            items[0],
        ));
    } else {
        lemma_enc_items_snoc(items.drop_first(), i - 1);
        assert(items.subrange(0, i + 1).drop_first() =~= items.drop_first().subrange(0, i));
        assert(items.subrange(0, i).drop_first() =~= items.drop_first().subrange(0, i - 1));
        assert(items.drop_first()[i - 1] == items[i]);
        assert(string_seq_enc_items(items.subrange(0, i + 1)) =~= string_enc(items[0])
            + string_seq_enc_items(items.drop_first().subrange(0, i)));
        assert(string_seq_enc_items(items.subrange(0, i)) + string_enc(items[i]) =~= string_enc(
            items[0],
        ) + (string_seq_enc_items(items.drop_first().subrange(0, i - 1)) + string_enc(items[i])));
    }
}

proof fn lemma_items_round_trip(items: Seq<Seq<char>>, rest: Seq<u8>)
    requires
        forall|i: int| 0 <= i < items.len() ==> string_fits(#[trigger] items[i]),
    ensures
        string_seq_dec_items(string_seq_enc_items(items) + rest, items.len() as int) == Some(
            (items, string_seq_enc_items(items).len() as int),
        ),
    decreases items.len(),
{
    if items.len() == 0 {
        assert(string_seq_enc_items(items) + rest =~= rest);
        assert(items =~= Seq::<Seq<char>>::empty());
    } else {
        let head = items[0];
        let tail = items.drop_first();
        let whole = string_seq_enc_items(items) + rest;
        assert(whole =~= string_enc(head) + (string_seq_enc_items(tail) + rest));
        crate::types::string::lemma_string_round_trip(head, string_seq_enc_items(tail) + rest);
        assert(whole.subrange(string_enc(head).len() as int, whole.len() as int)
            =~= string_seq_enc_items(tail) + rest);
        assert(forall|i: int| 0 <= i < tail.len() ==> string_fits(#[trigger] tail[i]));
        lemma_items_round_trip(tail, rest);
        assert(seq![head] + tail =~= items);
    }
}

/// Round trip: a sequence of strings, each within the wire limit, encoded
/// and then decoded with anything appended, is returned exactly, in order.
pub proof fn lemma_string_seq_round_trip(items: Seq<Seq<char>>, rest: Seq<u8>)
    requires
        string_seq_fits(items),
    ensures
        string_seq_dec(string_seq_enc(items) + rest) == Some(
            (items, string_seq_enc(items).len() as int),
        ),
{
    let n: u32 = items.len() as u32;
    let body = string_seq_enc_items(items);
    let whole = string_seq_enc(items) + rest;
    assert(whole =~= varint_enc(n) + (body + rest));
    crate::types::varint::lemma_varint_round_trip(n as i32, body + rest);
    assert((n as i32) as u32 == n && n <= 0x7fff_ffff) by (bit_vector)
        requires
            n <= 0x7fff_ffff,
    ;
    let p = varint_dec(whole)->Some_0;
    assert(whole.subrange(p.1, whole.len() as int) =~= body + rest);
    lemma_items_round_trip(items, rest);
}

/// Appends the count and each string in order; a sequence holding any
/// over-long string, or more items than a VarInt can count, is refused
/// with nothing appended.
pub fn write_string_seq(items: &Vec<MCString>, out: &mut Vec<u8>) -> (r: Result<(), FormatError>)
    ensures
        string_seq_fits(seq_views(items@)) ==> r is Ok && final(out)@ == old(out)@
            + string_seq_enc(seq_views(items@)),
        !string_seq_fits(seq_views(items@)) ==> r == Err::<(), FormatError>(
            FormatError::StringTooLong,
        ) && final(out)@ == old(out)@,
{
    let ghost views = seq_views(items@);
    if items.len() > 0x7fff_ffff {
        return Err(FormatError::StringTooLong);
    }
    let mut i: usize = 0;
    while i < items.len()
        invariant
            i <= items.len(),
            views == seq_views(items@),
            forall|j: int| 0 <= j < i ==> string_fits(#[trigger] views[j]),
        decreases items.len() - i,
    {
        if items[i].0.as_str().as_bytes().len() > 32767 {
            proof {
                assert(views[i as int] == items@[i as int]@);
                assert(!string_fits(views[i as int]));
            }
            return Err(FormatError::StringTooLong);
        }
        i = i + 1;
    }
    let n: usize = items.len();
    encode_varint(n as i32, out);
    proof {
        assert((n as i32) as u32 == n as u32) by (bit_vector)
            requires
                n <= 0x7fff_ffff,
        ;
    }
    let mut i: usize = 0;
    while i < items.len()
        invariant
            i <= items.len(),
            n == items.len(),
            n <= 0x7fff_ffff,
            views == seq_views(items@),
            string_seq_fits(views),
            out@ == old(out)@ + varint_enc(n as u32) + string_seq_enc_items(
                views.subrange(0, i as int),
            ),
        decreases items.len() - i,
    {
        let ghost out_pre = out@;
        match items[i].write(out) {
            Ok(_) => {},
            Err(e) => {
                proof {
                    assert(false);
                }
                return Err(e);
            },
        }
        proof {
            lemma_enc_items_snoc(views, i as int);
            assert(out@ =~= old(out)@ + varint_enc(n as u32) + string_seq_enc_items(
                views.subrange(0, i + 1),
            ));
        }
        i = i + 1;
    }
    proof {
        assert(views.subrange(0, views.len() as int) =~= views);
        assert(out@ =~= old(out)@ + string_seq_enc(views));
    }
    Ok(())
}

/// Reads a VarInt count, then that many strings in order.
#[verifier::loop_isolation(false)]
pub fn read_string_seq(cur: &mut Cursor) -> (r: Result<Vec<MCString>, FormatError>)
    ensures
        r matches Ok(v) ==> (string_seq_dec(old(cur)@) matches Some(t) && t.0 == seq_views(v@)
            && final(cur)@ == old(cur)@.subrange(t.1, old(cur)@.len() as int)),
        r is Ok <==> string_seq_dec(old(cur)@) is Some,
{
    let ghost s0 = cur@;
    let n: i32 = match decode_varint(cur) {
        Ok(n) => n,
        Err(e) => {
            return Err(e);
        },
    };
    proof {
        let u: u32 = varint_dec(s0)->Some_0.0;
        assert(u > 0x7fff_ffff <==> (u as i32) < 0) by (bit_vector);
        crate::types::varint::lemma_varint_dec_fuel_len(s0, 5);
    }
    if n < 0 {
        return Err(FormatError::Underrun);
    }
    let ghost s1 = cur@;
    let mut acc: Vec<MCString> = Vec::new();
    let mut i: i32 = 0;
    proof {
        assert(seq_views(acc@) =~= Seq::<Seq<char>>::empty());
    }
    while i < n
        invariant
            0 <= i <= n,
            acc@.len() == i as int,
            cur@ =~= s1.subrange(s1.len() - cur@.len(), s1.len() as int),
            cur@.len() <= s1.len(),
            string_seq_dec_items(s1, n as int) == (match string_seq_dec_items(
                cur@,
                n as int - i as int,
            ) {
                Some(t) => Some((seq_views(acc@) + t.0, (s1.len() - cur@.len()) + t.1)),
                None => None,
            }),
        decreases n - i,
    {
        let ghost cur_pre = cur@;
        let ghost acc_pre = acc@;
        let item = match MCString::read(cur) {
            Ok(v) => v,
            Err(e) => {
                proof {
                    assert(string_seq_dec_items(cur_pre, n as int - i as int) is None);
                    assert(string_seq_dec_items(s1, n as int) is None);
                    let p = varint_dec(s0)->Some_0;
                    assert(p.0 <= 0x7fff_ffff);
                    assert(p.0 as int == n as int);
                    assert(s1 == s0.subrange(p.1, s0.len() as int));
                    assert(string_seq_dec_items(s0.subrange(p.1, s0.len() as int), p.0 as int)
                        is None);
                    assert(string_seq_dec(s0) is None);
                }
                return Err(e);
            },
        };
        acc.push(item);
        i = i + 1;
        proof {
            let q = string_dec(cur_pre)->Some_0;
            crate::types::string::lemma_string_dec_len(cur_pre);
            assert(cur@ =~= cur_pre.subrange(q.1, cur_pre.len() as int));
            assert(cur@ =~= s1.subrange(s1.len() - cur@.len(), s1.len() as int));
            assert(seq_views(acc@) =~= seq_views(acc_pre) + seq![item@]);
            assert forall|t0: Seq<Seq<char>>| true implies seq_views(acc_pre) + (seq![q.0] + t0)
                =~= seq_views(acc@) + t0 by {}
        }
    }
    proof {
        assert(string_seq_dec_items(cur@, 0) == Some((Seq::<Seq<char>>::empty(), 0int)));
        assert(seq_views(acc@) + Seq::<Seq<char>>::empty() =~= seq_views(acc@));
        let p = varint_dec(s0)->Some_0;
        assert(s1 =~= s0.subrange(p.1, s0.len() as int));
        let t = string_seq_dec_items(s1, n as int)->Some_0;
        assert(cur@ =~= s0.subrange(p.1 + t.1, s0.len() as int));
    }
    Ok(acc)
}

} // verus!
