//! The records that Notion's API returns for a collection of pages.

use vstd::prelude::*;
use crate::strmap::{collected, keys_distinct, lemma_collected_distinct, lemma_put_shape, put};
use crate::text::same_text;

verus! {

/// The answer to a collection query.
pub struct QueryCollection {
    pub record_map: RecordMap,
}

/// The blocks of an answer, by block id. No id occurs twice.
pub struct RecordMap {
    block: Vec<(String, Block)>,
}

/// A block record.
pub struct Block {
    pub value: ValueRole,
}

/// A block with the reader's role on it.
pub struct ValueRole {
    pub value: Value,
    pub role: String,
}

/// The content of a block.
pub struct Value {
    pub id: String,
    pub version: i32,
    /// The block's `type`.
    pub kind: String,
    pub properties: Properties,
}

/// The properties of a page block.
pub struct Properties {
    pub title: Vec<Title>,
}

/// A piece of rich text: a string, or a list of pieces.
pub enum Title {
    String(String),
    Array(Vec<Title>),
}

/// Block entries with their ids as character sequences.
pub open spec fn keyed(es: Seq<(String, Block)>) -> Seq<(Seq<char>, Block)> {
    es.map_values(|e: (String, Block)| (e.0@, e.1))
}

impl View for RecordMap {
    type V = Seq<(Seq<char>, Block)>;

    closed spec fn view(&self) -> Seq<(Seq<char>, Block)> {
        keyed(self.block@)
    }
}

/// Inserts `v` under the id `k` into the block entries `es`.
fn insert_block(es: &mut Vec<(String, Block)>, k: String, v: Block)
    ensures
        keyed(final(es)@) == put(keyed(old(es)@), k@, v),
{
    let ghost before = keyed(es@);
    let n = es.len();
    for i in 0..n
        invariant
            n == es@.len(),
            keyed(es@) == before,
            before == keyed(old(es)@),
            forall|t: int| 0 <= t < i ==> before[t].0 != k@,
    {
        if same_text(es[i].0.as_str(), k.as_str()) {
            proof {
                lemma_put_shape(before, k@, v);
                assert(before[i as int].0 == k@);
            }
            es.set(i, (k, v));
            assert(keyed(es@) =~= before.update(i as int, (k@, v)));
            return;
        }
    }
    proof {
        lemma_put_shape(before, k@, v);
    }
    es.push((k, v));
    assert(keyed(es@) =~= before.push((k@, v)));
}

impl RecordMap {
    #[verifier::type_invariant]
    spec fn inv(self) -> bool {
        keys_distinct(keyed(self.block@))
    }

    /// The record map that inserting `blocks` in order gives: a later block
    /// replaces an earlier one with the same id.
    pub fn from_blocks(blocks: Vec<(String, Block)>) -> (r: RecordMap)
        ensures
            r@ == collected(keyed(blocks@)),
    {
        let ghost all = keyed(blocks@);
        let mut rest = blocks;
        let mut out: Vec<(String, Block)> = Vec::new();
        let ghost mut i: int = 0;
        assert(keyed(out@) =~= collected(all.take(0)));
        assert(keyed(rest@) =~= all.skip(0));
        while rest.len() > 0
            invariant
                0 <= i <= all.len(),
                all.len() == blocks@.len(),
                keyed(rest@) == all.skip(i),
                keyed(out@) == collected(all.take(i)),
            decreases rest.len(),
        {
            let ghost r0 = keyed(rest@);
            assert(r0.len() == rest@.len());
            assert(r0.len() == all.len() - i);
            assert(r0[0] == all[i]);
            let (k, v) = rest.remove(0);
            proof {
                assert(r0[0] == (k@, v));
                assert(all.take(i + 1).drop_last() =~= all.take(i));
                assert(keyed(rest@) =~= r0.drop_first());
                assert(r0.drop_first() =~= all.skip(i + 1));
            }
            insert_block(&mut out, k, v);
            proof {
                i = i + 1;
            }
        }
        assert(all.take(i) =~= all);
        proof {
            lemma_collected_distinct(all);
        }
        RecordMap { block: out }
    }

    /// The blocks, in order, handed over.
    pub fn into_blocks(self) -> (r: Vec<(String, Block)>)
        ensures
            keyed(r@) == self@,
            keys_distinct(self@),
    {
        proof {
            use_type_invariant(&self);
        }
        self.block
    }

    /// The blocks, in order.
    pub fn blocks(&self) -> (r: &Vec<(String, Block)>)
        ensures
            keyed(r@) == self@,
            keys_distinct(self@),
    {
        proof {
            use_type_invariant(self);
        }
        &self.block
    }
}

} // verus!
