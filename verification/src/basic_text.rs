//! The text of the string operands of the text-showing operators (`Tj`,
//! `TJ`, `'` and `"`), each byte read as the character of the same number,
//! without fonts.

use vstd::prelude::*;
use crate::content_parser::{lemma_objs_push, obj_of, objs_of, ops_view, Obj, Operand, Operation};
use crate::engine::bytes_equal;
use crate::text_std::{char_from_u32, latin1, string_push};

verus! {

/// The text of an operand: its bytes for a string, the texts of its items
/// in order for an array, nothing otherwise.
pub open spec fn obj_text(o: Obj) -> Seq<char>
    decreases o, 0nat,
{
    match o {
        Obj::LiteralString(b) => latin1(b),
        Obj::HexString(b) => latin1(b),
        Obj::Array(items) => objs_text(items),
        _ => Seq::empty(),
    }
}

/// The texts of operands, in order.
pub open spec fn objs_text(s: Seq<Obj>) -> Seq<char>
    decreases s, 1nat,
{
    if s.len() == 0 {
        Seq::empty()
    } else {
        objs_text(s.drop_last()) + obj_text(s.last())
    }
}

/// Whether an operator shows text: `Tj`, `TJ`, `'` or `"`.
pub open spec fn is_show_op(w: Seq<u8>) -> bool {
    w == seq![84u8, 106] || w == seq![84u8, 74] || w == seq![39u8] || w == seq![34u8]
}

/// The text shown by a sequence of operations.
pub open spec fn shown_text(ops: Seq<(Seq<u8>, Seq<Obj>)>) -> Seq<char>
    decreases ops.len(),
{
    if ops.len() == 0 {
        Seq::empty()
    } else {
        shown_text(ops.drop_last()) + if is_show_op(ops.last().0) {
            objs_text(ops.last().1)
        } else {
            Seq::empty()
        }
    }
}

proof fn lemma_objs_text_push(s: Seq<Obj>, o: Obj)
    ensures
        objs_text(s.push(o)) == objs_text(s) + obj_text(o),
{
    assert(s.push(o).drop_last() =~= s);
}

/// Appends the bytes as characters of the same number.
fn push_latin1(out: &mut String, bytes: &Vec<u8>)
    ensures
        final(out)@ == old(out)@ + latin1(bytes@),
{
    let ghost start = out@;
    let mut i: usize = 0;
    while i < bytes.len()
        invariant
            0 <= i <= bytes@.len(),
            out@ == start + latin1(bytes@.subrange(0, i as int)),
        decreases bytes@.len() - i,
    {
        match char_from_u32(bytes[i] as u32) {
            Some(c) => string_push(out, c),
            None => {},
        }
        assert(latin1(bytes@.subrange(0, i + 1)) =~= latin1(bytes@.subrange(0, i as int)).push(
            bytes@[i as int] as char,
        ));
        i = i + 1;
    }
    assert(bytes@.subrange(0, bytes@.len() as int) =~= bytes@);
}

/// Appends the text of an operand (see `obj_text`).
pub fn collect_text_from_operand(obj: &Operand, out: &mut String)
    ensures
        final(out)@ == old(out)@ + obj_text(obj_of(*obj)),
    decreases obj, 0nat,
{
    match obj {
        Operand::LiteralString(b) => push_latin1(out, b),
        Operand::HexString(b) => push_latin1(out, b),
        Operand::Array(items) => {
            collect_texts(items, out);
        },
        _ => {
            assert(old(out)@ + Seq::<char>::empty() =~= old(out)@);
        },
    }
}

/// Appends the texts of operands, in order.
fn collect_texts(items: &Vec<Operand>, out: &mut String)
    ensures
        final(out)@ == old(out)@ + objs_text(objs_of(items@)),
    decreases items, 1nat,
{
    let ghost start = out@;
    let mut i: usize = 0;
    assert(objs_of(items@.subrange(0, 0)) =~= Seq::<Obj>::empty());
    assert(start + Seq::<char>::empty() =~= start);
    while i < items.len()
        invariant
            0 <= i <= items@.len(),
            out@ == start + objs_text(objs_of(items@.subrange(0, i as int))),
        decreases items@.len() - i,
    {
        let ghost before = out@;
        proof {
            assert(decreases_to!(items => items@[i as int]));
        }
        collect_text_from_operand(&items[i], out);
        proof {
            assert(items@.subrange(0, i + 1) =~= items@.subrange(0, i as int).push(items@[i as int]));
            lemma_objs_push(items@.subrange(0, i as int), items@[i as int]);
            lemma_objs_text_push(objs_of(items@.subrange(0, i as int)), obj_of(items@[i as int]));
            assert(out@ =~= start + objs_text(objs_of(items@.subrange(0, i + 1))));
        }
        i = i + 1;
    }
    assert(items@.subrange(0, items@.len() as int) =~= items@);
}

/// The text the text-showing operations of a page show, strings read byte
/// by byte as characters of the same number.
pub fn basic_page_text(ops: &Vec<Operation>) -> (r: String)
    ensures
        r@ == shown_text(ops_view(ops@)),
{
    let ghost v = ops_view(ops@);
    let mut out = String::new();
    let mut i: usize = 0;
    while i < ops.len()
        invariant
            0 <= i <= ops@.len(),
            v == ops_view(ops@),
            out@ == shown_text(v.subrange(0, i as int)),
        decreases ops@.len() - i,
    {
        let op = &ops[i];
        assert(v.subrange(0, i + 1).drop_last() =~= v.subrange(0, i as int));
        assert(v[i as int] == (op.operator@, objs_of(op.operands@)));
        let w = op.operator.as_slice();
        let shows = bytes_equal(w, &[84u8, 106]) || bytes_equal(w, &[84u8, 74]) || bytes_equal(w, &[39u8])
            || bytes_equal(w, &[34u8]);
        proof {
            assert((&[84u8, 106])@ =~= seq![84u8, 106]);
            assert((&[84u8, 74])@ =~= seq![84u8, 74]);
            assert((&[39u8])@ =~= seq![39u8]);
            assert((&[34u8])@ =~= seq![34u8]);
        }
        if shows {
            collect_texts(&op.operands, &mut out);
        } else {
            assert(out@ + Seq::<char>::empty() =~= out@);
        }
        i = i + 1;
    }
    assert(v.subrange(0, ops@.len() as int) =~= v);
    out
}

} // verus!
