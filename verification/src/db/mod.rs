//! Sample store: the query text and time windows the store is read and
//! pruned with, and which schema migrations are still to run. The store
//! itself is SQLite, driven from the application.

pub mod compare;
pub mod downsample;
pub mod query;

use vstd::prelude::*;

use crate::db::query::text_views;
use crate::text::{
    chars_equal_str, chars_of, lemma_text_le_total, lemma_text_le_transitive, text_le,
    text_le_chars,
};

verus! {

broadcast use vstd::seq_lib::group_to_multiset_ensures;

/// Whether a file name has the extension `sql` as `Path::extension` reads
/// it: it ends in `.sql` and something comes before that dot.
pub open spec fn is_sql_file(name: Seq<char>) -> bool {
    name.len() > 4 && name.subrange(name.len() - 4, name.len() as int) == ".sql"@
}

/// The migrations still to run: the SQL files whose name is not among the
/// applied ones, in the order of the directory listing.
pub open spec fn pending_of(files: Seq<Seq<char>>, applied: Seq<Seq<char>>) -> Seq<Seq<char>> {
    files.filter(|n: Seq<char>| is_sql_file(n) && !applied.contains(n))
}

/// Whether the texts are in ascending order.
pub open spec fn texts_ascending(s: Seq<Seq<char>>) -> bool {
    forall|i: int, j: int| 0 <= i < j < s.len() ==> text_le(s[i], s[j])
}

/// Whether `name` has the extension `sql`.
pub fn is_sql_file_name(name: &str) -> (r: bool)
    ensures
        r == is_sql_file(name@),
{
    let v = chars_of(name);
    let n = v.len();
    if n <= 4 {
        return false;
    }
    let r = v[n - 4] == '.' && v[n - 3] == 's' && v[n - 2] == 'q' && v[n - 1] == 'l';
    proof {
        reveal_strlit(".sql");
        if r {
            assert(v@.subrange(n - 4, n as int) =~= ".sql"@);
        } else {
            let t = v@.subrange(n - 4, n as int);
            assert(t[0] != '.' || t[1] != 's' || t[2] != 'q' || t[3] != 'l');
        }
    }
    r
}

/// The migrations to run, given the file names of the migrations directory
/// and the names recorded as applied: every `.sql` file not yet applied, in
/// ascending order of name (the order of the names' bytes).
pub fn pending_migrations(files: &[String], applied: &[String]) -> (r: Vec<String>)
    ensures
        texts_ascending(text_views(r@)),
        text_views(r@).to_multiset() == pending_of(text_views(files@), text_views(applied@)).to_multiset(),
{
    let ghost fv = text_views(files@);
    let ghost av = text_views(applied@);
    let mut r: Vec<String> = Vec::new();
    let n = files.len();
    for i in 0..n
        invariant
            n == files@.len(),
            fv == text_views(files@),
            av == text_views(applied@),
            texts_ascending(text_views(r@)),
            text_views(r@).to_multiset() == pending_of(fv.take(i as int), av).to_multiset(),
    {
        let name = &files[i];
        let ghost before = text_views(r@);
        assert(fv.take(i + 1).drop_last() =~= fv.take(i as int));
        assert(fv.take(i + 1).last() == name@);
        if is_sql_file_name(name.as_str()) && !contains_text(applied, name.as_str()) {
            let nc = chars_of(name.as_str());
            let mut p: usize = 0;
            while p < r.len() && !text_le_chars(nc.as_slice(), chars_of(r[p].as_str()).as_slice())
                invariant
                    before == text_views(r@),
                    texts_ascending(before),
                    nc@ == name@,
                    p <= r@.len(),
                    forall|q: int| 0 <= q < p ==> text_le(before[q], name@),
                decreases r.len() - p,
            {
                proof {
                    lemma_text_le_total(name@, before[p as int]);
                }
                p = p + 1;
            }
            proof {
                if p < before.len() {
                    assert forall|q: int| p <= q < before.len() implies text_le(name@, before[q]) by {
                        if q > p {
                            lemma_text_le_transitive(name@, before[p as int], before[q]);
                        }
                    }
                }
            }
            r.insert(p, name.clone());
            proof {
                let after = text_views(r@);
                assert(after =~= before.insert(p as int, name@));
                before.insert_ensures(p as int, name@);
                assert forall|a: int, b: int| 0 <= a < b < after.len() implies text_le(after[a], after[b]) by {
                    if b < p {
                    } else if b == p {
                    } else if a < p {
                        assert(after[b] == before[b - 1]);
                        lemma_text_le_transitive(before[a], name@, before[b - 1]);
                    } else if a == p {
                        assert(after[b] == before[b - 1]);
                    } else {
                        assert(after[a] == before[a - 1]);
                        assert(after[b] == before[b - 1]);
                    }
                }
                vstd::seq_lib::to_multiset_insert(before, p as int, name@);
            }
        }
        proof {
            reveal(Seq::filter);
        }
    }
    assert(fv.take(n as int) =~= fv);
    r
}

/// Migrations run once: after the pending migrations have run and been
/// recorded as applied, none is pending any more.
pub proof fn lemma_migrations_run_once(files: Seq<Seq<char>>, applied: Seq<Seq<char>>, ran: Seq<Seq<char>>)
    requires
        ran.to_multiset() == pending_of(files, applied).to_multiset(),
    ensures
        pending_of(files, applied + ran).len() == 0,
{
    let pending = |n: Seq<char>| is_sql_file(n) && !applied.contains(n);
    let after = |n: Seq<char>| is_sql_file(n) && !(applied + ran).contains(n);
    assert forall|i: int| 0 <= i < files.len() implies !after(files[i]) by {
        let f = files[i];
        if pending(f) {
            files.lemma_filter_contains(pending, i);
            vstd::seq_lib::to_multiset_contains(files.filter(pending), f);
            vstd::seq_lib::to_multiset_contains(ran, f);
            let j = choose|j: int| 0 <= j < ran.len() && ran[j] == f;
            assert((applied + ran)[applied.len() + j] == f);
        } else if is_sql_file(f) {
            let j = choose|j: int| 0 <= j < applied.len() && applied[j] == f;
            assert((applied + ran)[j] == f);
        }
    }
    files.lemma_all_neg_filter_empty(after);
}

/// Whether `name` is one of `names`.
pub fn contains_text(names: &[String], name: &str) -> (r: bool)
    ensures
        r == text_views(names@).contains(name@),
{
    let mut i: usize = 0;
    while i < names.len()
        invariant
            i <= names@.len(),
            forall|j: int| 0 <= j < i ==> names@[j]@ != name@,
        decreases names.len() - i,
    {
        if chars_equal_str(chars_of(names[i].as_str()).as_slice(), name) {
            assert(text_views(names@)[i as int] == name@);
            return true;
        }
        i = i + 1;
    }
    assert forall|j: int| 0 <= j < text_views(names@).len() implies text_views(names@)[j] != name@ by {
        assert(text_views(names@)[j] == names@[j]@);
    }
    false
}

} // verus!
