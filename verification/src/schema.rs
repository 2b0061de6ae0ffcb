//! The schema script: how it is turned into the statements that a migration
//! runs.

use vstd::prelude::*;
use vstd::string::*;
use crate::text::{
    begins_with, contains_text, lemma_piece_is_part, occurs_at, replace, replace_all,
    replace_char, replace_each, replaced_from, split, split_on, starts_with, texts, trim, trimmed,
};

verus! {

/// A text as it is cut into statements: its line breaks turned into spaces
/// and the placeholder `<RF>` replaced by the replication factor.
pub open spec fn prepared(text: Seq<char>, replication_factor: Seq<char>) -> Seq<char> {
    replace_all(replace_char(text, '\n', " "@), "<RF>"@, replication_factor)
}

/// Whether a fragment of the script is run: it is not empty and does not
/// begin with the comment marker `--`.
pub open spec fn is_statement(fragment: Seq<char>) -> bool {
    fragment.len() > 0 && !starts_with(fragment, "--"@)
}

/// The fragments that are run, in order, each with its `;` put back.
pub open spec fn statements_from(fragments: Seq<Seq<char>>) -> Seq<Seq<char>>
    decreases fragments.len(),
{
    if fragments.len() == 0 {
        Seq::empty()
    } else if is_statement(fragments.last()) {
        statements_from(fragments.drop_last()).push(fragments.last() + ";"@)
    } else {
        statements_from(fragments.drop_last())
    }
}

/// The statements of a text for a replication factor, in source order: the
/// prepared text is cut at each `;`, and empty fragments and comments are
/// left out.
pub open spec fn statements_in(text: Seq<char>, replication_factor: Seq<char>) -> Seq<Seq<char>> {
    statements_from(split_on(prepared(text, replication_factor), ';'))
}

/// The statements of a schema script for a replication factor: those of the
/// script without the whitespace around it.
pub open spec fn statements_of(script: Seq<char>, replication_factor: Seq<char>) -> Seq<
    Seq<char>,
> {
    statements_in(trimmed(script), replication_factor)
}

/// Whether a fragment of the script is run.
pub fn runs(fragment: &str) -> (run: bool)
    ensures
        run == is_statement(fragment@),
{
    fragment.unicode_len() > 0 && !begins_with(fragment, "--")
}

/// The statements of a text for a replication factor, in source order.
pub fn statements_in_text(text: &str, replication_factor: &str) -> (statements: Vec<String>)
    ensures
        texts(statements@) == statements_in(text@, replication_factor@),
{
    let flat = replace_each(text, '\n', " ");
    let prepared = replace(flat.as_str(), "<RF>", replication_factor);
    let fragments = split(prepared.as_str(), ';');
    let mut statements: Vec<String> = Vec::new();
    let mut i: usize = 0;
    assert(texts(fragments@).take(0) == Seq::<Seq<char>>::empty());
    assert(texts(statements@) == Seq::<Seq<char>>::empty());
    while i < fragments.len()
        invariant
            i <= fragments.len(),
            texts(statements@) == statements_from(texts(fragments@).take(i as int)),
        decreases fragments.len() - i,
    {
        assert(texts(fragments@).take(i + 1).drop_last() == texts(fragments@).take(i as int));
        assert(texts(fragments@).take(i + 1).last() == fragments@[i as int]@);
        if runs(fragments[i].as_str()) {
            let statement = fragments[i].clone().concat(";");
            let ghost before = statements@;
            statements.push(statement);
            assert(texts(statements@) == texts(before).push(statement@));
        }
        i += 1;
    }
    assert(texts(fragments@).take(fragments.len() as int) == texts(fragments@));
    statements
}

/// The statements that a migration runs for a schema script, in the order in
/// which it runs them.
pub fn migration_statements(script: &str, replication_factor: &str) -> (statements: Vec<String>)
    ensures
        texts(statements@) == statements_of(script@, replication_factor@),
{
    statements_in_text(trim(script), replication_factor)
}

/// Whether a replication factor is plain: it is not empty and holds none of
/// the characters of the placeholder `<RF>`. Every decimal numeral is plain.
pub open spec fn is_plain(replication_factor: Seq<char>) -> bool {
    &&& replication_factor.len() > 0
    &&& forall|i: int|
        0 <= i < replication_factor.len() ==> {
            let c = #[trigger] replication_factor[i];
            c != '<' && c != 'R' && c != 'F' && c != '>'
        }
}

/// Replacing the placeholder by a plain text leaves no placeholder behind,
/// and what comes out begins with an end of the placeholder only where the
/// text itself did.
proof fn lemma_replaced_is_clean(text: Seq<char>, with: Seq<char>, from: int)
    requires
        0 <= from <= text.len(),
        is_plain(with),
    ensures
        ({
            let out = replaced_from(text, "<RF>"@, with, from);
            &&& forall|at: int| !occurs_at(out, "<RF>"@, at)
            &&& (out.len() >= 3 && out[0] == 'R' && out[1] == 'F' && out[2] == '>') ==> (from + 3
                <= text.len() && text[from] == 'R' && text[from + 1] == 'F' && text[from + 2]
                == '>')
            &&& (out.len() >= 2 && out[0] == 'F' && out[1] == '>') ==> (from + 2 <= text.len()
                && text[from] == 'F' && text[from + 1] == '>')
            &&& (out.len() >= 1 && out[0] == '>') ==> (from + 1 <= text.len() && text[from]
                == '>')
        }),
    decreases text.len() - from,
{
    reveal_strlit("<RF>");
    let mark = "<RF>"@;
    assert(mark.len() == 4 && mark[0] == '<' && mark[1] == 'R' && mark[2] == 'F' && mark[3]
        == '>');
    let out = replaced_from(text, mark, with, from);
    if from >= text.len() {
    } else if occurs_at(text, mark, from) {
        lemma_replaced_is_clean(text, with, from + 4);
        let rest = replaced_from(text, mark, with, from + 4);
        assert(out == with + rest);
        assert(out[0] == with[0]);
        assert forall|at: int| !occurs_at(out, mark, at) by {
            if occurs_at(out, mark, at) {
                assert(out.subrange(at, at + 4)[0] == out[at]);
                if at < with.len() {
                    assert(out[at] == with[at]);
                } else {
                    assert(rest.subrange(at - with.len(), at - with.len() + 4) == out.subrange(
                        at,
                        at + 4,
                    ));
                    assert(occurs_at(rest, mark, at - with.len()));
                }
            }
        }
    } else {
        lemma_replaced_is_clean(text, with, from + 1);
        let rest = replaced_from(text, mark, with, from + 1);
        assert(out == seq![text[from]] + rest);
        assert(out[0] == text[from]);
        assert(forall|i: int| 1 <= i < out.len() ==> out[i] == rest[i - 1]);
        assert forall|at: int| !occurs_at(out, mark, at) by {
            if occurs_at(out, mark, at) {
                if at >= 1 {
                    assert(rest.subrange(at - 1, at + 3) == out.subrange(at, at + 4));
                    assert(occurs_at(rest, mark, at - 1));
                } else {
                    assert(out.subrange(0, 4)[0] == out[0]);
                    assert(out.subrange(0, 4)[1] == out[1]);
                    assert(out.subrange(0, 4)[2] == out[2]);
                    assert(out.subrange(0, 4)[3] == out[3]);
                    assert(text.subrange(from, from + 4) == mark);
                }
            }
        }
    }
}

/// The statement with index `k` is a fragment that is run, with its `;`.
proof fn lemma_statement_origin(fragments: Seq<Seq<char>>, k: int) -> (j: int)
    requires
        0 <= k < statements_from(fragments).len(),
    ensures
        0 <= j < fragments.len(),
        is_statement(fragments[j]),
        statements_from(fragments)[k] == fragments[j] + ";"@,
    decreases fragments.len(),
{
    let earlier = statements_from(fragments.drop_last());
    if k < earlier.len() {
        lemma_statement_origin(fragments.drop_last(), k)
    } else {
        fragments.len() - 1
    }
}

/// With a plain replication factor no statement holds the placeholder any
/// more; and whatever the replication factor, each statement ends in `;`,
/// holds more than that, and does not begin with the comment marker.
pub proof fn law_statements_are_clean(text: Seq<char>, replication_factor: Seq<char>, k: int)
    requires
        0 <= k < statements_in(text, replication_factor).len(),
    ensures
        ({
            let statement = statements_in(text, replication_factor)[k];
            &&& is_plain(replication_factor) ==> !contains_text(statement, "<RF>"@)
            &&& statement.len() > 1
            &&& statement.last() == ';'
            &&& !starts_with(statement, "--"@)
        }),
{
    reveal_strlit("<RF>");
    reveal_strlit("--");
    reveal_strlit(";");
    let mark = "<RF>"@;
    assert(mark.len() == 4 && mark[3] == '>');
    assert("--"@.len() == 2 && "--"@[1] == '-');
    assert(";"@.len() == 1 && ";"@[0] == ';');
    let whole = prepared(text, replication_factor);
    let fragments = split_on(whole, ';');
    let statement = statements_from(fragments)[k];
    let j = lemma_statement_origin(fragments, k);
    let fragment = fragments[j];
    let (a, b) = lemma_piece_is_part(whole, ';', 0, j);
    assert(statement == fragment + ";"@);
    assert(statement.last() == ";"@[0]);
    if starts_with(statement, "--"@) {
        if fragment.len() >= 2 {
            assert(fragment.take(2) == statement.take(2));
        } else {
            assert(statement.take(2)[1] == statement[1]);
        }
    }
    if is_plain(replication_factor) {
        lemma_replaced_is_clean(replace_char(text, '\n', " "@), replication_factor, 0);
        assert forall|at: int| !occurs_at(statement, mark, at) by {
            if occurs_at(statement, mark, at) {
                assert(statement.subrange(at, at + 4)[3] == statement[at + 3]);
                assert(at + 4 <= fragment.len());
                assert(whole.subrange(a + at, a + at + 4) == statement.subrange(at, at + 4));
                assert(occurs_at(whole, mark, a + at));
            }
        }
    }
}

/// What holds of the statements of every text holds of those of a schema
/// script: none holds the placeholder where the replication factor is plain,
/// each ends in `;` and holds more than that, and none begins with the
/// comment marker.
pub proof fn law_migration_is_clean(script: Seq<char>, replication_factor: Seq<char>, k: int)
    requires
        0 <= k < statements_of(script, replication_factor).len(),
    ensures
        ({
            let statement = statements_of(script, replication_factor)[k];
            &&& is_plain(replication_factor) ==> !contains_text(statement, "<RF>"@)
            &&& statement.len() > 1
            &&& statement.last() == ';'
            &&& !starts_with(statement, "--"@)
        }),
{
    law_statements_are_clean(trimmed(script), replication_factor, k);
}

} // verus!
