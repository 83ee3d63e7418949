//! Naming rules of the local data-file archive: file kinds, archived
//! names, file ids and their parsing, and the listing order.

use vstd::prelude::*;
use vstd::string::*;
use vstd::multiset::Multiset;
use crate::text::{
    lex_le, str_le, lemma_lex_le_total, lemma_lex_le_transitive, lemma_lex_le_reflexive,
    decimal, decimal_string, first_index_of, has_substring, find_char, contains_str, str_eq, views,
    lemma_first_index_of, lemma_first_index_found, lemma_decimal_digits, is_digit_char,
};

verus! {

/// The archive's file kinds, in listing order.
pub open spec fn file_kinds_spec() -> Seq<Seq<char>> {
    seq!["input"@, "curve"@, "result"@]
}

/// Whether `k` names one of the archive's file kinds.
pub open spec fn is_file_kind(k: Seq<char>) -> bool {
    k == "input"@ || k == "curve"@ || k == "result"@
}

/// Message for an unknown file kind.
pub open spec fn bad_kind_message(k: Seq<char>) -> Seq<char> {
    "非法的文件类别: "@ + k
}

/// Message for a malformed file id.
pub open spec fn bad_id_message() -> Seq<char> {
    "非法的文件标识"@
}

/// Whether the stored part of an id is a plain name inside its kind's
/// directory: non-empty, with no separator and no `..`.
pub open spec fn is_safe_stored_name(s: Seq<char>) -> bool {
    &&& s.len() > 0
    &&& !s.contains('/')
    &&& !s.contains('\\')
    &&& !has_substring(s, ".."@)
}

/// How a file id `kind/stored` is taken apart, or the error it gets.
pub open spec fn split_id_spec(id: Seq<char>) -> Result<(Seq<char>, Seq<char>), Seq<char>> {
    match first_index_of(id, '/') {
        None => Err(bad_id_message()),
        Some(p) => {
            let kind = id.take(p);
            let stored = id.skip(p + 1);
            if !is_file_kind(kind) {
                Err(bad_kind_message(kind))
            } else if !is_safe_stored_name(stored) {
                Err(bad_id_message())
            } else {
                Ok((kind, stored))
            }
        },
    }
}

/// The archived name of a file saved at `ts` milliseconds.
pub open spec fn stored_name_spec(ts: nat, file_name: Seq<char>) -> Seq<char> {
    decimal(ts) + "_"@ + file_name
}

/// The id of an archived file.
pub open spec fn file_id_spec(kind: Seq<char>, stored: Seq<char>) -> Seq<char> {
    kind + "/"@ + stored
}

/// The file name recovered from an archived name: what follows the
/// first `_`, or the whole name when it has none.
pub open spec fn recovered_name_spec(stored: Seq<char>) -> Seq<char> {
    match first_index_of(stored, '_') {
        Some(p) => stored.skip(p + 1),
        None => stored,
    }
}

/// The archive's file kinds, in listing order.
pub fn file_kinds() -> (r: Vec<String>)
    ensures
        views(r@) == file_kinds_spec(),
{
    let r = vec![String::from_str("input"), String::from_str("curve"), String::from_str("result")];
    assert(views(r@) =~= file_kinds_spec());
    r
}

/// Accepts the three archive kinds and refuses any other.
pub fn validate_kind(kind: &str) -> (r: Result<(), String>)
    ensures
        r is Ok <==> is_file_kind(kind@),
        r matches Err(m) ==> m@ == bad_kind_message(kind@),
{
    if str_eq(kind, "input") || str_eq(kind, "curve") || str_eq(kind, "result") {
        Ok(())
    } else {
        let mut m = String::from_str("非法的文件类别: ");
        m.append(kind);
        Err(m)
    }
}

/// Takes a file id `kind/stored` apart, refusing unknown kinds and stored
/// names that could leave the kind's directory.
pub fn split_id(id: &str) -> (r: Result<(String, String), String>)
    ensures
        match r {
            Ok((k, s)) => split_id_spec(id@) == Ok::<(Seq<char>, Seq<char>), Seq<char>>((k@, s@)),
            Err(m) => split_id_spec(id@) == Err::<(Seq<char>, Seq<char>), Seq<char>>(m@),
        },
{
    let n = id.unicode_len();
    let p = match find_char(id, '/') {
        Some(p) => p,
        None => {
            return Err(String::from_str("非法的文件标识"));
        },
    };
    let kind = id.substring_char(0, p);
    let stored = id.substring_char(p + 1, n);
    assert(kind@ =~= id@.take(p as int));
    assert(stored@ =~= id@.skip(p + 1));
    match validate_kind(kind) {
        Ok(()) => {},
        Err(m) => {
            return Err(m);
        },
    }
    if stored.unicode_len() == 0 || find_char(stored, '/').is_some() || find_char(stored, '\\').is_some()
        || contains_str(stored, "..") {
        return Err(String::from_str("非法的文件标识"));
    }
    Ok((String::from_str(kind), String::from_str(stored)))
}

/// The archived name of a file saved at `ts`: the timestamp, `_`, then the
/// file's own name.
pub fn stored_file_name(ts: u64, file_name: &str) -> (r: String)
    ensures
        r@ == stored_name_spec(ts as nat, file_name@),
{
    let mut r = decimal_string(ts);
    r.append("_");
    r.append(file_name);
    r
}

/// The id of an archived file: its kind, `/`, then its archived name.
pub fn file_id(kind: &str, stored: &str) -> (r: String)
    ensures
        r@ == file_id_spec(kind@, stored@),
{
    let mut r = String::from_str(kind);
    r.append("/");
    r.append(stored);
    r
}

/// Recovers the name a file was saved under from its archived name.
pub fn recovered_file_name(stored: &str) -> (r: String)
    ensures
        r@ == recovered_name_spec(stored@),
{
    match find_char(stored, '_') {
        Some(p) => {
            let n = stored.unicode_len();
            let rest = stored.substring_char(p + 1, n);
            assert(rest@ =~= stored@.skip(p + 1));
            String::from_str(rest)
        },
        None => String::from_str(stored),
    }
}

/// The listed name of a file archived at `ts` is the name it was saved
/// under.
pub proof fn law_archived_name_round_trip(ts: nat, file_name: Seq<char>)
    ensures
        recovered_name_spec(stored_name_spec(ts, file_name)) == file_name,
{
    let d = decimal(ts);
    let s = stored_name_spec(ts, file_name);
    lemma_decimal_digits(ts);
    reveal_strlit("_");
    assert(s[d.len() as int] == '_');
    assert forall|j: int| 0 <= j < d.len() implies s[j] != '_' by {
        assert(s[j] == d[j]);
        assert(is_digit_char(d[j]));
    }
    lemma_first_index_of(s, '_', d.len() as int);
    assert(s.skip(d.len() as int + 1) =~= file_name);
}

/// An id made from a known kind and a safe archived name is taken apart
/// into exactly that kind and name.
pub proof fn law_file_id_round_trip(kind: Seq<char>, stored: Seq<char>)
    requires
        is_file_kind(kind),
        is_safe_stored_name(stored),
    ensures
        split_id_spec(file_id_spec(kind, stored)) == Ok::<(Seq<char>, Seq<char>), Seq<char>>((kind, stored)),
{
    let id = file_id_spec(kind, stored);
    reveal_strlit("/");
    reveal_strlit("input");
    reveal_strlit("curve");
    reveal_strlit("result");
    assert(id[kind.len() as int] == '/');
    assert forall|j: int| 0 <= j < kind.len() implies id[j] != '/' by {
        assert(id[j] == kind[j]);
    }
    lemma_first_index_of(id, '/', kind.len() as int);
    assert(id.take(kind.len() as int) =~= kind);
    assert(id.skip(kind.len() as int + 1) =~= stored);
}


/// An id is accepted only with a known kind and a stored name that stays
/// inside that kind's directory: no separator and no `..`.
pub proof fn law_accepted_ids_stay_in_their_directory(id: Seq<char>)
    ensures
        split_id_spec(id) matches Ok((k, s)) ==> is_file_kind(k) && is_safe_stored_name(s)
            && id == file_id_spec(k, s),
{
    if split_id_spec(id) is Ok {
        lemma_first_index_found(id, '/');
        let p = first_index_of(id, '/')->Some_0;
        reveal_strlit("/");
        assert(id[p] == '/');
        assert(id =~= file_id_spec(id.take(p), id.skip(p + 1)));
    }
}

/// The archived name of a plain file name (no separator, no `..`) is a
/// safe stored name.
pub proof fn lemma_stored_name_safe(ts: nat, file_name: Seq<char>)
    requires
        !file_name.contains('/'),
        !file_name.contains('\\'),
        !has_substring(file_name, ".."@),
    ensures
        is_safe_stored_name(stored_name_spec(ts, file_name)),
{
    let d = decimal(ts);
    let s = stored_name_spec(ts, file_name);
    let l = d.len() + 1;
    lemma_decimal_digits(ts);
    reveal_strlit("_");
    reveal_strlit("..");
    assert(s.len() > 0);
    assert forall|i: int| 0 <= i < s.len() implies s[i] != '/' && s[i] != '\\' by {
        if i < d.len() {
            assert(s[i] == d[i]);
            assert(is_digit_char(d[i]));
        } else if i >= l {
            assert(s[i] == file_name[i - l]);
        }
    }
    if has_substring(s, ".."@) {
        let i = choose|i: int| 0 <= i && i + (".."@).len() <= s.len() && #[trigger] s.subrange(i, i + (".."@).len()) == ".."@;
        assert(s.subrange(i, i + 2)[0] == '.');
        assert(s.subrange(i, i + 2)[1] == '.');
        assert(s[i] == '.');
        assert(s[i + 1] == '.');
        if i < l {
            if i < d.len() {
                assert(s[i] == d[i]);
                assert(is_digit_char(d[i]));
            }
            assert(false);
        }
        assert(file_name.subrange(i - l, i - l + 2) =~= ".."@);
        assert(false);
    }
}

/// The id of a file archived under a plain name (no separator, no `..`)
/// is taken apart into its kind and archived name: reading or deleting by
/// that id reaches the file that was saved.
pub proof fn law_saved_file_id_round_trip(kind: Seq<char>, ts: nat, file_name: Seq<char>)
    requires
        is_file_kind(kind),
        !file_name.contains('/'),
        !file_name.contains('\\'),
        !has_substring(file_name, ".."@),
    ensures
        split_id_spec(file_id_spec(kind, stored_name_spec(ts, file_name)))
            == Ok::<(Seq<char>, Seq<char>), Seq<char>>((kind, stored_name_spec(ts, file_name))),
{
    lemma_stored_name_safe(ts, file_name);
    law_file_id_round_trip(kind, stored_name_spec(ts, file_name));
}


/// What the archive reports of one stored file.
pub struct StoredFileMeta {
    /// `kind/stored name`, the handle used to read or delete the file.
    pub id: String,
    /// The name the file was saved under.
    pub name: String,
    /// One of the archive's file kinds.
    pub kind: String,
    /// Size in bytes.
    pub size: u64,
    /// When the file was archived, in Unix milliseconds.
    pub saved_at_ms: u64,
    /// Where the file lies on disk.
    pub path: String,
}

/// The metadata of a file just archived.
pub fn saved_file_meta(kind: &str, file_name: &str, stored: &str, size: u64, ts: u64, path: &str) -> (r: StoredFileMeta)
    ensures
        r.id@ == file_id_spec(kind@, stored@),
        r.name@ == file_name@,
        r.kind@ == kind@,
        r.size == size,
        r.saved_at_ms == ts,
        r.path@ == path@,
{
    StoredFileMeta {
        id: file_id(kind, stored),
        name: String::from_str(file_name),
        kind: String::from_str(kind),
        size,
        saved_at_ms: ts,
        path: String::from_str(path),
    }
}

/// The metadata of a file found in the archive under `kind`, its name
/// recovered from the archived name.
pub fn listed_file_meta(kind: &str, stored: &str, size: u64, modified_ms: u64, path: &str) -> (r: StoredFileMeta)
    ensures
        r.id@ == file_id_spec(kind@, stored@),
        r.name@ == recovered_name_spec(stored@),
        r.kind@ == kind@,
        r.size == size,
        r.saved_at_ms == modified_ms,
        r.path@ == path@,
{
    StoredFileMeta {
        id: file_id(kind, stored),
        name: recovered_file_name(stored),
        kind: String::from_str(kind),
        size,
        saved_at_ms: modified_ms,
        path: String::from_str(path),
    }
}

/// Listing order: newer files first, files of the same time by id.
pub open spec fn listed_no_later(a: StoredFileMeta, b: StoredFileMeta) -> bool {
    a.saved_at_ms > b.saved_at_ms || (a.saved_at_ms == b.saved_at_ms && lex_le(a.id@, b.id@))
}

/// Whether a listing is in listing order.
pub open spec fn is_listing_order(s: Seq<StoredFileMeta>) -> bool {
    forall|i: int, j: int| 0 <= i < j < s.len() ==> listed_no_later(#[trigger] s[i], #[trigger] s[j])
}

fn no_later(a: &StoredFileMeta, b: &StoredFileMeta) -> (r: bool)
    ensures
        r == listed_no_later(*a, *b),
{
    a.saved_at_ms > b.saved_at_ms || (a.saved_at_ms == b.saved_at_ms && str_le(a.id.as_str(), b.id.as_str()))
}

proof fn lemma_listed_total(a: StoredFileMeta, b: StoredFileMeta)
    ensures
        listed_no_later(a, b) || listed_no_later(b, a),
{
    lemma_lex_le_total(a.id@, b.id@);
}

proof fn lemma_listed_transitive(a: StoredFileMeta, b: StoredFileMeta, c: StoredFileMeta)
    requires
        listed_no_later(a, b),
        listed_no_later(b, c),
    ensures
        listed_no_later(a, c),
{
    if a.saved_at_ms == b.saved_at_ms && b.saved_at_ms == c.saved_at_ms {
        lemma_lex_le_transitive(a.id@, b.id@, c.id@);
    }
}

/// Puts an archive listing in listing order: newest first, then by id.
pub fn sort_listing(files: Vec<StoredFileMeta>) -> (r: Vec<StoredFileMeta>)
    ensures
        r@.to_multiset() == files@.to_multiset(),
        is_listing_order(r@),
{
    broadcast use vstd::seq_lib::group_to_multiset_ensures;
    let mut rest = files;
    let mut out: Vec<StoredFileMeta> = Vec::new();
    let ghost orig = rest@;
    while rest.len() > 0
        invariant
            out@.to_multiset().add(rest@.to_multiset()) == orig.to_multiset(),
            is_listing_order(out@),
            forall|i: int, j: int| 0 <= i < out@.len() && 0 <= j < rest@.len()
                ==> listed_no_later(#[trigger] out@[i], #[trigger] rest@[j]),
        decreases rest.len(),
    {
        let mut best: usize = 0;
        let mut k: usize = 1;
        proof {
            lemma_lex_le_reflexive(rest@[0].id@);
        }
        while k < rest.len()
            invariant
                0 <= best < rest.len(),
                1 <= k <= rest.len(),
                forall|j: int| 0 <= j < k ==> listed_no_later(rest@[best as int], #[trigger] rest@[j]),
            decreases rest.len() - k,
        {
            proof {
                lemma_listed_total(rest@[best as int], rest@[k as int]);
                lemma_lex_le_reflexive(rest@[k as int].id@);
            }
            if !no_later(&rest[best], &rest[k]) {
                proof {
                    assert forall|j: int| 0 <= j < k + 1 implies listed_no_later(rest@[k as int], #[trigger] rest@[j]) by {
                        if j < k {
                            lemma_listed_transitive(rest@[k as int], rest@[best as int], rest@[j]);
                        }
                    }
                }
                best = k;
            }
            k = k + 1;
        }
        proof {
            lemma_lex_le_reflexive(rest@[best as int].id@);
        }
        let ghost before_rest = rest@;
        let ghost before_out = out@;
        let item = rest.remove(best);
        proof {
            vstd::seq_lib::to_multiset_remove(before_rest, best as int);
            assert(before_rest.remove(best as int) == rest@);
        }
        out.push(item);
        proof {
            assert(out@ =~= before_out.push(item));
            vstd::seq_lib::to_multiset_build(before_out, item);
            assert(before_rest[best as int] == item);
            assert(before_rest.contains(item));
            vstd::seq_lib::to_multiset_contains(before_rest, item);
            assert(rest@.to_multiset() =~= before_rest.to_multiset().remove(item));
            assert(out@.to_multiset() =~= before_out.to_multiset().insert(item));
            assert(out@.to_multiset().add(rest@.to_multiset()) =~= orig.to_multiset());
            assert forall|i: int, j: int| 0 <= i < j < out@.len() implies listed_no_later(#[trigger] out@[i], #[trigger] out@[j]) by {
                if j == out@.len() - 1 {
                    assert(before_rest[best as int] == item);
                } else {
                    assert(out@[i] == before_out[i]);
                    assert(out@[j] == before_out[j]);
                }
            }
            assert forall|i: int, j: int| 0 <= i < out@.len() && 0 <= j < rest@.len()
                implies listed_no_later(#[trigger] out@[i], #[trigger] rest@[j]) by {
                let jj = if j < best { j } else { j + 1 };
                assert(rest@[j] == before_rest[jj]);
                if i == out@.len() - 1 {
                    assert(out@[i] == item);
                } else {
                    assert(out@[i] == before_out[i]);
                }
            }
        }
    }
    proof {
        assert(rest@.to_multiset() =~= Multiset::empty());
        assert(out@.to_multiset().add(Multiset::empty()) =~= out@.to_multiset());
    }
    out
}


/// The kinds whose files a clearing request removes: the one named, or
/// every kind when none is named; an unknown kind is refused.
pub fn kinds_to_clear(kind: Option<&str>) -> (r: Result<Vec<String>, String>)
    ensures
        match kind {
            Some(k) => if is_file_kind(k@) {
                r matches Ok(v) && views(v@) == seq![k@]
            } else {
                r matches Err(m) && m@ == bad_kind_message(k@)
            },
            None => r matches Ok(v) && views(v@) == file_kinds_spec(),
        },
{
    match kind {
        Some(k) => {
            validate_kind(k)?;
            let v = vec![String::from_str(k)];
            assert(views(v@) =~= seq![k@]);
            Ok(v)
        },
        None => Ok(file_kinds()),
    }
}

} // verus!
