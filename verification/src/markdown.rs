//! Putting the rendered articles together into one text.

use vstd::prelude::*;
use vstd::string::*;

verus! {

/// What follows each block: the end of its last line and two blank lines.
pub open spec fn block_gap() -> Seq<char> {
    seq!['\n', '\n', '\n']
}

/// The blocks in their order, each followed by `block_gap`.
pub open spec fn joined(blocks: Seq<Seq<char>>) -> Seq<char>
    decreases blocks.len(),
{
    if blocks.len() == 0 {
        Seq::empty()
    } else {
        joined(blocks.drop_last()) + blocks.last() + block_gap()
    }
}

/// Adds one block and the gap after it to the end of `buffer`.
pub fn append_block(buffer: &mut String, block: &str)
    ensures
        final(buffer)@ == old(buffer)@ + block@ + block_gap(),
{
    buffer.append(block);
    buffer.append("\n\n\n");
    proof {
        reveal_strlit("\n\n\n");
        assert("\n\n\n"@ =~= block_gap());
    }
}

/// One text that holds every block in order, each followed by two blank lines.
pub fn join_blocks(blocks: &Vec<String>) -> (text: String)
    ensures
        text@ == joined(blocks.deep_view()),
{
    let mut text = String::new();
    let mut done: usize = 0;
    while done < blocks.len()
        invariant
            done <= blocks.len(),
            text@ == joined(blocks.deep_view().take(done as int)),
        decreases blocks.len() - done,
    {
        append_block(&mut text, blocks[done].as_str());
        proof {
            let all = blocks.deep_view();
            let next = all.take(done + 1);
            assert(next.drop_last() =~= all.take(done as int));
            assert(next.last() == blocks[done as int]@);
        }
        done += 1;
    }
    assert(blocks.deep_view().take(done as int) =~= blocks.deep_view());
    text
}

/// Joining keeps the order and is done block by block: what two lists give one
/// after the other is what the two give, one after the other.
pub proof fn lemma_joined_concat(first: Seq<Seq<char>>, second: Seq<Seq<char>>)
    ensures
        joined(first + second) == joined(first) + joined(second),
    decreases second.len(),
{
    if second.len() == 0 {
        assert(first + second =~= first);
    } else {
        lemma_joined_concat(first, second.drop_last());
        assert((first + second).drop_last() =~= first + second.drop_last());
        assert((first + second).last() == second.last());
    }
}

/// Where the block `i` starts in the joined text: after the blocks before it and
/// their gaps.
pub open spec fn block_start(blocks: Seq<Seq<char>>, i: int) -> int {
    joined(blocks.take(i)).len() as int
}

/// Every block stands in the joined text as it is, at its start, with the gap
/// behind it; and the blocks stand in their order, none reaching into the next.
pub proof fn lemma_joined_holds_each_block(blocks: Seq<Seq<char>>, i: int)
    requires
        0 <= i < blocks.len(),
    ensures
        block_start(blocks, i) + blocks[i].len() + block_gap().len() == block_start(blocks, i + 1),
        block_start(blocks, i + 1) <= joined(blocks).len(),
        joined(blocks).subrange(block_start(blocks, i), block_start(blocks, i) + blocks[i].len())
            == blocks[i],
        joined(blocks).subrange(
            block_start(blocks, i) + blocks[i].len(),
            block_start(blocks, i + 1),
        ) == block_gap(),
{
    let before = blocks.take(i);
    let upto = blocks.take(i + 1);
    let after = blocks.skip(i + 1);
    assert(upto.drop_last() =~= before);
    assert(upto.last() == blocks[i]);
    assert(upto + after =~= blocks);
    lemma_joined_concat(upto, after);
    let text = joined(blocks);
    let start = block_start(blocks, i);
    assert(text.subrange(start, start + blocks[i].len()) =~= blocks[i]);
    assert(text.subrange(start + blocks[i].len(), block_start(blocks, i + 1)) =~= block_gap());
}

/// Two blocks give the first, the gap, the second and the gap, and nothing else.
pub proof fn lemma_joined_pair(first: Seq<char>, second: Seq<char>)
    ensures
        joined(seq![first, second]) == first + block_gap() + second + block_gap(),
{
    let both = seq![first, second];
    assert(both.drop_last() =~= seq![first]);
    assert(seq![first].drop_last() =~= Seq::<Seq<char>>::empty());
    assert(joined(Seq::<Seq<char>>::empty()) =~= Seq::<char>::empty());
    assert(seq![first].last() == first);
    assert(joined(seq![first]) =~= first + block_gap());
    assert(joined(both) =~= first + block_gap() + second + block_gap());
}

} // verus!
