//! The accessibility tree as ARIA-style text, one indented line per node.
use vstd::prelude::*;
use crate::text::{join_spec, signed_decimal};
use crate::types::{kids, A11yNode};
use crate::ui_open_chat::next_depth;

verus! {

/// Two spaces per level.
pub open spec fn indent(d: nat) -> Seq<char>
    decreases d,
{
    if d == 0 {
        Seq::empty()
    } else {
        indent((d - 1) as nat) + "  "@
    }
}

pub open spec fn texts_view(v: Seq<String>) -> Seq<Seq<char>> {
    v.map_values(|s: String| s@)
}

/// The quoted name, when there is one.
pub open spec fn name_part(n: A11yNode) -> Seq<char> {
    if n.name@.len() > 0 {
        "\""@ + n.name@ + "\""@
    } else {
        Seq::empty()
    }
}

/// The states in brackets, comma-separated, when there are any.
pub open spec fn states_part(n: A11yNode) -> Seq<char> {
    match n.states {
        Some(v) => if v@.len() > 0 {
            "["@ + join_spec(texts_view(v@), ","@) + "]"@
        } else {
            Seq::empty()
        },
        None => Seq::empty(),
    }
}

/// The bounds as `@(x,y wxh)`, when there are any.
pub open spec fn bounds_part(n: A11yNode) -> Seq<char> {
    match n.bounds {
        Some(b) => "@("@ + signed_decimal(b.x as int) + ","@ + signed_decimal(b.y as int) + " "@
            + signed_decimal(b.width as int) + "x"@ + signed_decimal(b.height as int) + ")"@,
        None => Seq::empty(),
    }
}

/// The parts that are not empty, in order.
pub open spec fn present(parts: Seq<Seq<char>>) -> Seq<Seq<char>>
    decreases parts.len(),
{
    if parts.len() == 0 {
        Seq::empty()
    } else if parts.last().len() > 0 {
        present(parts.drop_last()).push(parts.last())
    } else {
        present(parts.drop_last())
    }
}

/// A node's own line: indent, `- `, then role, name, states and bounds,
/// each when not empty, separated by spaces.
pub open spec fn aria_line(n: A11yNode, d: nat) -> Seq<char> {
    indent(d) + "- "@ + join_spec(
        present(seq![n.role@, name_part(n), states_part(n), bounds_part(n)]),
        " "@,
    )
}

/// A node and its subtree: its line, then its children's text one level deeper.
pub open spec fn aria(n: A11yNode, d: nat) -> Seq<char>
    decreases n, 1int,
{
    match n.children {
        Some(c) => if c@.len() > 0 {
            aria_line(n, d) + "\n"@ + aria_kids(c@, next_depth(d), 0)
        } else {
            aria_line(n, d)
        },
        None => aria_line(n, d),
    }
}

/// The children from the `k`-th on, separated by newlines.
pub open spec fn aria_kids(ks: Seq<A11yNode>, d: nat, k: int) -> Seq<char>
    decreases ks, ks.len() - k,
{
    if k < 0 || k >= ks.len() {
        Seq::empty()
    } else if k == ks.len() - 1 {
        aria(ks[k], d)
    } else {
        aria(ks[k], d) + "\n"@ + aria_kids(ks, d, k + 1)
    }
}

fn push_text(out: &mut String, s: &str)
    ensures
        final(out)@ == old(out)@ + s@,
{
    crate::router::file_downloads::append_str(out, s);
}

fn own_line(node: &A11yNode, depth: usize) -> (r: String)
    ensures
        r@ == aria_line(*node, depth as nat),
{
    let mut line = String::new();
    let mut i: usize = 0;
    while i < depth
        invariant
            i <= depth,
            line@ == indent(i as nat),
        decreases depth - i,
    {
        push_text(&mut line, "  ");
        i += 1;
    }
    push_text(&mut line, "- ");
    let mut parts: Vec<String> = Vec::new();
    let ghost all = seq![node.role@, name_part(*node), states_part(*node), bounds_part(*node)];
    // role
    if !node.role.as_str().is_empty() {
        parts.push(node.role.clone());
    }
    assert(texts_view(parts@) =~= present(all.take(1))) by {
        assert(all.take(1).drop_last() =~= Seq::<Seq<char>>::empty());
        assert(all.take(1).last() == node.role@);
        assert(present(Seq::<Seq<char>>::empty()) == Seq::<Seq<char>>::empty());
    }
    // name
    let mut name = String::new();
    if !node.name.as_str().is_empty() {
        push_text(&mut name, "\"");
        push_text(&mut name, node.name.as_str());
        push_text(&mut name, "\"");
    }
    assert(name@ == name_part(*node)) by {
        reveal_strlit("\"");
    }
    if !name.as_str().is_empty() {
        parts.push(name);
    }
    assert(texts_view(parts@) =~= present(all.take(2))) by {
        assert(all.take(2).drop_last() =~= all.take(1));
        assert(all.take(2).last() == name_part(*node));
    }
    // states
    let mut states = String::new();
    match &node.states {
        Some(v) => {
            if v.len() > 0 {
                push_text(&mut states, "[");
                let mut k: usize = 0;
                while k < v.len()
                    invariant
                        k <= v.len(),
                        v.len() > 0,
                        states@ == "["@ + join_spec(texts_view(v@.take(k as int)), ","@),
                    decreases v.len() - k,
                {
                    assert(texts_view(v@.take(k + 1)).drop_last() =~= texts_view(v@.take(k as int)));
                    assert(texts_view(v@.take(k + 1)).last() == v@[k as int]@);
                    if k > 0 {
                        push_text(&mut states, ",");
                    } else {
                        assert(texts_view(v@.take(0)) =~= Seq::<Seq<char>>::empty());
                        assert(texts_view(v@.take(1)).len() == 1);
                    }
                    push_text(&mut states, v[k].as_str());
                    proof {
                        if k == 0 {
                            assert(join_spec(texts_view(v@.take(1)), ","@) == v@[0]@);
                        }
                    }
                    k += 1;
                }
                assert(v@.take(v.len() as int) == v@);
                push_text(&mut states, "]");
            }
        },
        None => {},
    }
    assert(states@ == states_part(*node)) by {
        reveal_strlit("[");
    }
    if !states.as_str().is_empty() {
        parts.push(states);
    }
    assert(texts_view(parts@) =~= present(all.take(3))) by {
        assert(all.take(3).drop_last() =~= all.take(2));
        assert(all.take(3).last() == states_part(*node));
    }
    // bounds
    let mut bounds = String::new();
    match &node.bounds {
        Some(b) => {
            push_text(&mut bounds, "@(");
            crate::text::push_signed_decimal(b.x as i64, &mut bounds);
            push_text(&mut bounds, ",");
            crate::text::push_signed_decimal(b.y as i64, &mut bounds);
            push_text(&mut bounds, " ");
            crate::text::push_signed_decimal(b.width as i64, &mut bounds);
            push_text(&mut bounds, "x");
            crate::text::push_signed_decimal(b.height as i64, &mut bounds);
            push_text(&mut bounds, ")");
        },
        None => {},
    }
    proof {
        if node.bounds is Some {
            reveal_strlit("@(");
            assert(bounds@.len() > 0);
        }
    }
    if !bounds.as_str().is_empty() {
        parts.push(bounds);
    }
    assert(texts_view(parts@) =~= present(all)) by {
        assert(all.take(4) =~= all);
        assert(all.drop_last() =~= all.take(3));
    }
    let mut joined = String::new();
    let mut j: usize = 0;
    while j < parts.len()
        invariant
            j <= parts.len(),
            joined@ == join_spec(texts_view(parts@.take(j as int)), " "@),
        decreases parts.len() - j,
    {
        assert(texts_view(parts@.take(j + 1)).drop_last() =~= texts_view(parts@.take(j as int)));
        assert(texts_view(parts@.take(j + 1)).last() == parts@[j as int]@);
        if j > 0 {
            push_text(&mut joined, " ");
        } else {
            assert(texts_view(parts@.take(1)).len() == 1);
        }
        push_text(&mut joined, parts[j].as_str());
        proof {
            if j == 0 {
                assert(join_spec(texts_view(parts@.take(1)), " "@) == parts@[0]@);
                assert(joined@ =~= parts@[0]@);
            }
        }
        j += 1;
    }
    assert(parts@.take(parts.len() as int) == parts@);
    push_text(&mut line, joined.as_str());
    line
}

/// The ARIA-style text of a subtree, its root indented `depth` levels.
pub fn tree_to_aria(node: &A11yNode, depth: usize) -> (r: String)
    ensures
        r@ == aria(*node, depth as nat),
    decreases *node, 1int,
{
    let line = own_line(node, depth);
    match &node.children {
        Some(children) => {
            if children.len() == 0 {
                return line;
            }
            let next = if depth < usize::MAX {
                depth + 1
            } else {
                depth
            };
            assert(next as nat == next_depth(depth as nat));
            let mut out = line;
            let mut k: usize = 0;
            while k < children.len()
                invariant
                    k <= children.len(),
                    children.len() > 0,
                    node.children == Some(*children),
                    next as nat == next_depth(depth as nat),
                    out@ + (if k < children.len() { "\n"@ + aria_kids(children@, next as nat, k as int) } else { Seq::empty() })
                        == aria_line(*node, depth as nat) + "\n"@ + aria_kids(children@, next as nat, 0),
                decreases children.len() - k,
            {
                proof {
                    lemma_child_decreases(*node, *children, k as int);
                }
                let child = tree_to_aria(&children[k], next);
                push_text(&mut out, "\n");
                push_text(&mut out, child.as_str());
                k += 1;
                proof {
                    if k < children.len() {
                        assert(aria_kids(children@, next as nat, (k - 1) as int) == aria(
                            children@[k - 1],
                            next as nat,
                        ) + "\n"@ + aria_kids(children@, next as nat, k as int));
                    } else {
                        assert(aria_kids(children@, next as nat, (k - 1) as int) == aria(
                            children@[k - 1],
                            next as nat,
                        ));
                    }
                }
            }
            out
        },
        None => line,
    }
}

proof fn lemma_child_decreases(n: A11yNode, c: Vec<A11yNode>, k: int)
    requires
        n.children == Some(c),
        0 <= k < c.len(),
    ensures
        decreases_to!(n => c@[k]),
{
    assert(decreases_to!(n => n.children));
    assert(decreases_to!(n.children => n.children->0));
    assert(decreases_to!(c => c@));
    assert(decreases_to!(c@ => c@[k]));
}

/// The text of a failed command: its error output, or its standard output
/// when the error output is empty.
pub fn command_error(stderr: String, stdout: &str) -> (r: String)
    ensures
        r@ == if stderr@.len() == 0 {
            stdout@
        } else {
            stderr@
        },
{
    if stderr.as_str().is_empty() {
        String::from_str(stdout)
    } else {
        stderr
    }
}

} // verus!
