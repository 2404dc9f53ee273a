//! The leader identity of the protobuf messages, as the engine uses it: a term and the
//! node elected in it; its committed form is the term alone.
use vstd::prelude::*;
use crate::decimal::{
    decimal, decimal_value, lemma_decimal_dash_free, lemma_decimal_value, lemma_split_dash_field,
    lemma_split_dash_last, push_decimal, split_dash,
};
use crate::pb::LeaderId;

verus! {

/// How a leader id is displayed: `T{term}-N{node_id}`.
pub open spec fn leader_id_text(term: u64, node_id: u64) -> Seq<char> {
    seq!['T'] + decimal(term as nat) + seq!['-', 'N'] + decimal(node_id as nat)
}

/// A leader id's text reads back: it starts with `T`, and the rest, split at its dash, has
/// two fields, the term in decimal and `N` followed by the node id in decimal.
pub proof fn law_leader_id_text_fields(term: u64, node_id: u64)
    ensures
        leader_id_text(term, node_id)[0] == 'T',
        split_dash(leader_id_text(term, node_id).drop_first()) == seq![
            decimal(term as nat),
            seq!['N'] + decimal(node_id as nat),
        ],
        decimal_value(split_dash(leader_id_text(term, node_id).drop_first())[0]) == term,
        split_dash(leader_id_text(term, node_id).drop_first())[1][0] == 'N',
        decimal_value(split_dash(leader_id_text(term, node_id).drop_first())[1].drop_first()) == node_id,
{
    let a = decimal(term as nat);
    let b = decimal(node_id as nat);
    let f = seq!['N'] + b;
    lemma_decimal_dash_free(term as nat);
    lemma_decimal_dash_free(node_id as nat);
    lemma_decimal_value(term as nat);
    lemma_decimal_value(node_id as nat);
    assert forall|i: int| 0 <= i < f.len() implies f[i] != '-' by {
        if i > 0 {
            assert(f[i] == b[i - 1]);
        }
    }
    lemma_split_dash_last(f);
    lemma_split_dash_field(a, f);
    assert(leader_id_text(term, node_id).drop_first() =~= a + seq!['-'] + f);
    assert(f.drop_first() =~= b);
}

impl LeaderId {
    /// The leader id of `node_id` in `term`.
    pub fn new(term: u64, node_id: u64) -> (r: Self)
        ensures
            r == (LeaderId { term, node_id }),
    {
        LeaderId { term, node_id }
    }

    /// The term.
    pub fn term(&self) -> (r: u64)
        ensures
            r == self.term,
    {
        self.term
    }

    /// The node elected; a leader id always names one.
    pub fn node_id(&self) -> (r: Option<&u64>)
        ensures
            r == Some(&self.node_id),
    {
        Some(&self.node_id)
    }

    /// The committed form of the leader id: its term.
    pub fn to_committed(&self) -> (r: u64)
        ensures
            r == self.term,
    {
        self.term
    }

    /// The display form `T{term}-N{node_id}`.
    pub fn to_string(&self) -> (r: String)
        ensures
            r@ == leader_id_text(self.term, self.node_id),
            r@ == seq!['T'] + decimal(self.term as nat) + seq!['-', 'N'] + decimal(self.node_id as nat),
    {
        proof {
            reveal_strlit("T");
            reveal_strlit("-N");
        }
        let mut s = String::new();
        s.append("T");
        push_decimal(&mut s, self.term);
        s.append("-N");
        push_decimal(&mut s, self.node_id);
        assert(s@ =~= leader_id_text(self.term, self.node_id));
        s
    }
}

} // verus!
