//! Building the text of a generated wrapper's body: the comma-joined
//! argument list in declared order, and the pass-through call expression
//! that forwards it to the same-named target function.

use vstd::prelude::*;
use vstd::string::StringExecFns;

verus! {

/// The names joined with a comma between each adjacent pair, in order.
pub open spec fn join_args(args: Seq<Seq<char>>) -> Seq<char>
    decreases args.len(),
{
    if args.len() == 0 {
        Seq::<char>::empty()
    } else if args.len() == 1 {
        args[0]
    } else {
        join_args(args.drop_last()) + ","@ + args.last()
    }
}

/// Extending a joined list by one name appends a comma (when the list was
/// not empty) and the new name.
proof fn lemma_join_step(args: Seq<Seq<char>>, j: int)
    requires
        0 <= j < args.len(),
    ensures
        join_args(args.take(j + 1)) == if j == 0 {
            args[0]
        } else {
            (join_args(args.take(j)) + ","@ + args[j])
        },
{
    let t = args.take(j + 1);
    assert(t.drop_last() =~= args.take(j));
    if j == 0 {
        assert(join_args(t) == t[0]);
    } else {
        assert(join_args(t) == join_args(t.drop_last()) + ","@ + t.last());
    }
}

/// Joins the given names with a comma between each adjacent pair, keeping
/// their order.
pub fn join_with_commas(args: &Vec<String>) -> (joined: String)
    ensures
        joined@ == join_args(args@.map_values(|a: String| a@)),
{
    let ghost views = args@.map_values(|a: String| a@);
    let mut joined = String::new();
    let mut j: usize = 0;
    while j < args.len()
        invariant
            j <= args.len(),
            views == args@.map_values(|a: String| a@),
            joined@ == join_args(views.take(j as int)),
        decreases args.len() - j,
    {
        if j > 0 {
            joined.append(",");
        }
        joined.append(args[j].as_str());
        proof {
            lemma_join_step(views, j as int);
        }
        j = j + 1;
    }
    proof {
        assert(views.take(args@.len() as int) =~= views);
    }
    joined
}

/// The position where the name of index `i` begins in the joined list: the
/// names before it, each followed by one comma.
pub open spec fn join_offset(args: Seq<Seq<char>>, i: int) -> int
    decreases i,
{
    if i <= 0 {
        0
    } else {
        join_offset(args, i - 1) + args[i - 1].len() + 1
    }
}

/// Offsets grow by at least one per name.
proof fn lemma_join_offset_mono(args: Seq<Seq<char>>, i: int, j: int)
    requires
        0 <= i <= j,
    ensures
        join_offset(args, i) + (j - i) <= join_offset(args, j),
    decreases j - i,
{
    if i < j {
        lemma_join_offset_mono(args, i, j - 1);
    }
}

/// An offset inside the list does not depend on the names behind it.
proof fn lemma_join_offset_drop_last(args: Seq<Seq<char>>, i: int)
    requires
        0 <= i < args.len(),
    ensures
        join_offset(args.drop_last(), i) == join_offset(args, i),
    decreases i,
{
    if i > 0 {
        lemma_join_offset_drop_last(args, i - 1);
        assert(args.drop_last()[i - 1] == args[i - 1]);
    }
}

/// A subrange that lies inside the left part of a concatenation reads the
/// left part alone.
proof fn lemma_prefix_subrange(a: Seq<char>, b: Seq<char>, lo: int, hi: int)
    requires
        0 <= lo <= hi <= a.len(),
    ensures
        (a + b).subrange(lo, hi) == a.subrange(lo, hi),
{
    assert((a + b).subrange(lo, hi) =~= a.subrange(lo, hi));
}

/// The joined list of N names consists of exactly those N names in
/// declaration order — the name of index `i` stands as a subrange at its
/// offset — with one comma before each name but the first and nothing
/// else: the whole list is exactly one character shorter than the names
/// with one separator each.
pub proof fn lemma_join_forwards_names_in_order(args: Seq<Seq<char>>)
    ensures
        args.len() == 0 ==> join_args(args).len() == 0,
        args.len() >= 1 ==> join_args(args).len() + 1 == join_offset(args, args.len() as int),
        forall|i: int| #![trigger join_offset(args, i)]
            0 <= i < args.len() ==> join_args(args).subrange(
                join_offset(args, i),
                join_offset(args, i) + args[i].len(),
            ) == args[i],
        forall|i: int| #![trigger join_offset(args, i)]
            1 <= i < args.len() ==> join_args(args)[join_offset(args, i) - 1] == ',',
    decreases args.len(),
{
    reveal_strlit(",");
    let n = args.len() as int;
    if n == 0 {
    } else if n == 1 {
        assert(join_args(args) == args[0]);
        assert(join_offset(args, 0) == 0);
        assert(join_offset(args, 1) == args[0].len() + 1);
        assert(join_args(args).subrange(0, args[0].len() as int) =~= args[0]);
    } else {
        let shorter = args.drop_last();
        let joined_shorter = join_args(shorter);
        let last = args.last();
        lemma_join_forwards_names_in_order(shorter);
        lemma_join_offset_drop_last(args, n - 1);
        assert(join_args(args) == (joined_shorter + ","@) + last);
        assert(joined_shorter.len() + 1 == join_offset(args, n - 1));
        assert(join_offset(args, n) == join_offset(args, n - 1) + last.len() + 1);
        assert forall|i: int| 0 <= i < n implies join_args(args).subrange(
            #[trigger] join_offset(args, i),
            join_offset(args, i) + args[i].len(),
        ) == args[i] by {
            let off = join_offset(args, i);
            lemma_join_offset_mono(args, 0, i);
            if i < n - 1 {
                lemma_join_offset_drop_last(args, i);
                assert(shorter[i] == args[i]);
                assert(join_offset(args, i + 1) == off + args[i].len() + 1);
                lemma_join_offset_mono(args, i + 1, n - 1);
                assert(off + args[i].len() <= joined_shorter.len());
                assert(joined_shorter.subrange(
                    join_offset(shorter, i),
                    join_offset(shorter, i) + shorter[i].len(),
                ) == shorter[i]);
                lemma_prefix_subrange(
                    joined_shorter + ","@,
                    last,
                    off,
                    off + args[i].len() as int,
                );
                lemma_prefix_subrange(joined_shorter, ","@, off, off + args[i].len() as int);
            } else {
                assert(off == joined_shorter.len() + 1);
                assert((joined_shorter + ","@).len() == off);
                assert(join_args(args).subrange(off, off + args[i].len()) =~= last);
            }
        }
        assert forall|i: int| 1 <= i < n implies join_args(args)[#[trigger] join_offset(
            args,
            i,
        ) - 1] == ',' by {
            let off = join_offset(args, i);
            lemma_join_offset_mono(args, 0, i);
            if i < n - 1 {
                lemma_join_offset_drop_last(args, i);
                assert(join_offset(args, i + 1) == off + args[i].len() + 1);
                lemma_join_offset_mono(args, i + 1, n - 1);
                assert(off - 1 < joined_shorter.len());
                assert(joined_shorter[join_offset(shorter, i) - 1] == ',');
                assert(join_args(args)[off - 1] == joined_shorter[off - 1]);
            } else {
                assert(join_args(args)[off - 1] == (joined_shorter + ","@)[
                    joined_shorter.len() as int
                ]);
                assert((joined_shorter + ","@)[joined_shorter.len() as int] == ","@[0]);
            }
        }
    }
}

/// The body of a generated wrapper: a single expression that calls the
/// same-named target function, forwarding the joined argument list
/// positionally.
pub open spec fn call_line(name: Seq<char>, args: Seq<Seq<char>>) -> Seq<char> {
    "return "@ + name + "("@ + join_args(args) + ")"@
}

/// Builds the pass-through call expression for a wrapper of the given name
/// over the given argument names.
pub fn build_call_line(name: &str, args: &Vec<String>) -> (line: String)
    ensures
        line@ == call_line(name@, args@.map_values(|a: String| a@)),
{
    let mut line = String::from_str("return ");
    line.append(name);
    line.append("(");
    let joined = join_with_commas(args);
    line.append(joined.as_str());
    line.append(")");
    line
}

} // verus!
