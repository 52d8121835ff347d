//! A plain model of a parsed syntax tree, and the count of bytes that the
//! parser could not explain.

use vstd::prelude::*;

verus! {

broadcast use vstd::std_specs::vec::group_vec_axioms;

/// One node of a syntax tree: its byte range in the parsed text, whether the
/// parser marked it as an error or as a missing (inserted) node, and its
/// children in document order.
pub struct SyntaxNode {
    pub start_byte: usize,
    pub end_byte: usize,
    pub is_error: bool,
    pub is_missing: bool,
    pub children: Vec<SyntaxNode>,
}

/// Length of the byte range `start..end` (empty when `end < start`).
pub open spec fn range_len(start: int, end: int) -> nat {
    if start <= end {
        (end - start) as nat
    } else {
        0
    }
}

/// Bytes covered by error or missing nodes in the tree under `node`: such a
/// node counts with its whole range, and nothing below it is looked at.
pub open spec fn error_bytes(node: SyntaxNode) -> nat
    decreases node, node.children@.len() + 1,
{
    if node.is_error || node.is_missing {
        range_len(node.start_byte as int, node.end_byte as int)
    } else {
        children_error_bytes(node, node.children@.len())
    }
}

/// Sum of `error_bytes` over the first `k` children of `node`.
pub open spec fn children_error_bytes(node: SyntaxNode, k: nat) -> nat
    decreases node, k,
{
    if k == 0 || k > node.children@.len() {
        0
    } else {
        proof {
            assert(decreases_to!(node.children => node.children[k - 1]));
        }
        children_error_bytes(node, (k - 1) as nat) + error_bytes(node.children@[k - 1])
    }
}


/// Saturating sum of the error bytes under `node`.
fn error_bytes_saturating(node: &SyntaxNode) -> (total: usize)
    ensures
        total == min_nat(error_bytes(*node), usize::MAX as nat),
    decreases node, node.children@.len() + 1,
{
    if node.is_error || node.is_missing {
        if node.start_byte <= node.end_byte {
            node.end_byte - node.start_byte
        } else {
            0
        }
    } else {
        let mut total: usize = 0;
        let mut i: usize = 0;
        while i < node.children.len()
            invariant
                i <= node.children@.len(),
                !(node.is_error || node.is_missing),
                total == min_nat(children_error_bytes(*node, i as nat), usize::MAX as nat),
            decreases node.children@.len() - i,
        {
            proof {
                assert(decreases_to!(node.children => node.children[i as int]));
            }
            let child_total: usize = error_bytes_saturating(&node.children[i]);
            total = total.saturating_add(child_total);
            i = i + 1;
        }
        total
    }
}

/// The smaller of two natural numbers.
pub open spec fn min_nat(a: nat, b: nat) -> nat {
    if a <= b {
        a
    } else {
        b
    }
}

/// Counts the bytes of the parsed text that lie inside error or missing
/// nodes, without descending into such nodes, and caps the count at
/// `text_len`.
pub fn count_error_bytes(node: &SyntaxNode, text_len: usize) -> (count: usize)
    ensures
        count == min_nat(error_bytes(*node), text_len as nat),
{
    let total: usize = error_bytes_saturating(node);
    if total < text_len {
        total
    } else {
        text_len
    }
}

} // verus!
