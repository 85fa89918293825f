//! The structural document tree: what the text contains, before the schema
//! gives it meaning.

use vstd::prelude::*;
use crate::model::Number;

verus! {

/// One value of the document grammar.
#[derive(Debug)]
pub enum Value {
    /// A quoted string, kept as its raw bytes.
    Str(Vec<u8>),
    /// A decimal number.
    Num(Number),
    /// A bracketed, comma-separated array.
    Arr(Vec<Value>),
    /// A braced inline table of key-value pairs.
    Tab(Vec<Pair>),
}

/// One `key = value` binding.
#[derive(Debug)]
pub struct Pair {
    pub key: Vec<u8>,
    pub val: Value,
}

/// One `[[name]]` block and the bindings that follow it.
#[derive(Debug)]
pub struct Section {
    pub name: Vec<u8>,
    pub pairs: Vec<Pair>,
}

/// A whole structurally-parsed document: the bindings before the first
/// block, and the blocks in order.
#[derive(Debug)]
pub struct RawDoc {
    pub top: Vec<Pair>,
    pub sections: Vec<Section>,
}

/// The mathematical shapes of the tree.
pub enum ValueV {
    Str(Seq<u8>),
    Num(Number),
    Arr(Seq<ValueV>),
    Tab(Seq<PairV>),
}

pub struct PairV {
    pub key: Seq<u8>,
    pub val: ValueV,
}

pub struct SectionV {
    pub name: Seq<u8>,
    pub pairs: Seq<PairV>,
}

pub struct RawDocV {
    pub top: Seq<PairV>,
    pub sections: Seq<SectionV>,
}

pub open spec fn vview(v: Value) -> ValueV
    decreases v,
{
    match v {
        Value::Str(b) => ValueV::Str(b@),
        Value::Num(n) => ValueV::Num(n),
        Value::Arr(xs) => ValueV::Arr(vview_seq(xs@)),
        Value::Tab(ps) => ValueV::Tab(pview_seq(ps@)),
    }
}

pub open spec fn vview_seq(xs: Seq<Value>) -> Seq<ValueV>
    decreases xs,
{
    Seq::new(
        xs.len(),
        |i: int|
            if 0 <= i < xs.len() {
                vview(xs[i])
            } else {
                ValueV::Num(Number { neg: false, mantissa: 0u64, scale: 0u32 })
            },
    )
}

pub open spec fn pview(p: Pair) -> PairV
    decreases p,
{
    PairV { key: p.key@, val: vview(p.val) }
}

pub open spec fn pview_seq(ps: Seq<Pair>) -> Seq<PairV>
    decreases ps,
{
    Seq::new(
        ps.len(),
        |i: int|
            if 0 <= i < ps.len() {
                pview(ps[i])
            } else {
                PairV { key: Seq::empty(), val: ValueV::Num(Number { neg: false, mantissa: 0u64, scale: 0u32 }) }
            },
    )
}

pub open spec fn secview(s: Section) -> SectionV {
    SectionV { name: s.name@, pairs: pview_seq(s.pairs@) }
}

pub open spec fn secview_seq(ss: Seq<Section>) -> Seq<SectionV> {
    Seq::new(
        ss.len(),
        |i: int|
            if 0 <= i < ss.len() {
                secview(ss[i])
            } else {
                SectionV { name: Seq::empty(), pairs: Seq::empty() }
            },
    )
}

pub open spec fn docview(d: RawDoc) -> RawDocV {
    RawDocV { top: pview_seq(d.top@), sections: secview_seq(d.sections@) }
}

pub proof fn lemma_vview_seq_insert0(xs: Seq<Value>, x: Value)
    ensures
        vview_seq(xs.insert(0, x)) == vview_seq(xs).insert(0, vview(x)),
{
    assert(vview_seq(xs.insert(0, x)) =~= vview_seq(xs).insert(0, vview(x)));
}

pub proof fn lemma_pview_seq_insert0(ps: Seq<Pair>, p: Pair)
    ensures
        pview_seq(ps.insert(0, p)) == pview_seq(ps).insert(0, pview(p)),
{
    assert(pview_seq(ps.insert(0, p)) =~= pview_seq(ps).insert(0, pview(p)));
}

pub proof fn lemma_secview_seq_insert0(ss: Seq<Section>, sec: Section)
    ensures
        secview_seq(ss.insert(0, sec)) == secview_seq(ss).insert(0, secview(sec)),
{
    assert(secview_seq(ss.insert(0, sec)) =~= secview_seq(ss).insert(0, secview(sec)));
}

} // verus!
