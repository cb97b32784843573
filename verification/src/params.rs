//! The connection-string parser: an address of the form
//! `["file:"] <path> ["?" key "=" value {"&" key "=" value}]` becomes a typed
//! configuration. The recognized keys are `connection_limit` (a positive
//! integer) and `db_name` (stored verbatim as the attachment name); other
//! pairs, and segments without `=`, are discarded to stay forward-compatible
//! with options of other dialects.
use vstd::prelude::*;
use vstd::string::StrSliceExecFns;

use crate::engine;
use crate::error::ConnectorError;
use crate::text::{find_char, find_from, lemma_find_from, lemma_find_from_unique, split_chars, split_on, str_eq};

verus! {

/// Typed configuration parsed from an address string.
///
/// `file_path` is kept as text, not as a path value, because the attachment
/// statement embeds it as a SQL literal, which only works for UTF-8 text.
#[derive(Debug)]
pub struct SqliteParams {
    pub connection_limit: u32,
    pub file_path: String,
    pub db_name: Option<String>,
}

/// Mathematical image of a configuration.
pub ghost struct ParamsV {
    pub connection_limit: u32,
    pub file_path: Seq<char>,
    pub db_name: Option<Seq<char>>,
}

impl View for SqliteParams {
    type V = ParamsV;

    open spec fn view(&self) -> ParamsV {
        ParamsV {
            connection_limit: self.connection_limit,
            file_path: self.file_path@,
            db_name: self.db_name.deep_view(),
        }
    }
}

/// Whether the address starts with the scheme prefix `file:`.
pub open spec fn has_file_scheme(s: Seq<char>) -> bool {
    s.len() >= 5 && s[0] == 'f' && s[1] == 'i' && s[2] == 'l' && s[3] == 'e' && s[4] == ':'
}

/// How many leading characters the scheme prefix occupies.
pub open spec fn scheme_skip(s: Seq<char>) -> int {
    if has_file_scheme(s) {
        5
    } else {
        0
    }
}

/// Index of the `?` that ends the path component, or the address length.
pub open spec fn path_end(s: Seq<char>) -> int {
    find_from(s, '?', scheme_skip(s))
}

/// The path component: after the optional scheme, up to the first `?`.
pub open spec fn path_of(s: Seq<char>) -> Seq<char> {
    s.subrange(scheme_skip(s), path_end(s))
}

pub open spec fn is_digit(c: char) -> bool {
    48 <= c as u32 <= 57
}

pub open spec fn digit_val(c: char) -> int {
    c as u32 - 48
}

pub open spec fn all_digits(d: Seq<char>) -> bool {
    d.len() >= 1 && (forall|j: int| 0 <= j < d.len() ==> is_digit(d[j]))
}

/// Decimal value of a digit sequence.
pub open spec fn dec_val(d: Seq<char>) -> int
    decreases d.len(),
{
    if d.len() == 0 {
        0
    } else {
        dec_val(d.drop_last()) * 10 + digit_val(d.last())
    }
}

/// What a `connection_limit` value means: an optional `+`, then decimal
/// digits naming a positive integer that fits the configuration field.
pub open spec fn limit_of(v: Seq<char>) -> Option<u32> {
    let d = if v.len() > 0 && v[0] == '+' {
        v.skip(1)
    } else {
        v
    };
    if all_digits(d) && 1 <= dec_val(d) <= u32::MAX {
        Some(dec_val(d) as u32)
    } else {
        None
    }
}

/// Folds the `&`-separated segments left to right over the configuration;
/// a later recognized pair overrides an earlier one, and `None` means a
/// malformed `connection_limit` was hit.
pub open spec fn fold_params(
    segs: Seq<Seq<char>>,
    limit: u32,
    db: Option<Seq<char>>,
) -> Option<(u32, Option<Seq<char>>)>
    decreases segs.len(),
{
    if segs.len() == 0 {
        Some((limit, db))
    } else {
        let seg = segs[0];
        let rest = segs.drop_first();
        let e = find_from(seg, '=', 0);
        if 0 <= e < seg.len() {
            let k = seg.take(e);
            let v = seg.skip(e + 1);
            if k == "connection_limit"@ {
                match limit_of(v) {
                    Option::None => None,
                    Option::Some(l) => fold_params(rest, l, db),
                }
            } else if k == "db_name"@ {
                fold_params(rest, limit, Some(v))
            } else {
                fold_params(rest, limit, db)
            }
        } else {
            fold_params(rest, limit, db)
        }
    }
}

/// The configuration an address yields (limit and attachment name), or
/// `None` when a `connection_limit` value is malformed.
pub open spec fn params_of(s: Seq<char>, default_limit: u32) -> Option<(u32, Option<Seq<char>>)> {
    if path_end(s) == s.len() {
        Some((default_limit, None))
    } else {
        fold_params(
            split_chars(s.subrange(path_end(s) + 1, s.len() as int), '&'),
            default_limit,
            None,
        )
    }
}

/// Everything parsing promises, for a given directory-probe outcome and
/// default limit: a directory path, and an empty path component (the
/// configuration requires a non-empty file path), are rejected as
/// `DatabaseUrlIsInvalid` carrying that path; otherwise a malformed
/// `connection_limit` is rejected as `InvalidConnectionArguments`, and
/// every other address yields exactly the folded configuration with the
/// path component as `file_path`.
pub open spec fn parse_post(
    r: Result<SqliteParams, ConnectorError>,
    s: Seq<char>,
    path_is_dir: bool,
    default_limit: u32,
) -> bool {
    if path_is_dir || path_of(s).len() == 0 {
        r matches Err(ConnectorError::DatabaseUrlIsInvalid(p)) && p@ == path_of(s)
    } else {
        match params_of(s, default_limit) {
            Option::Some(cfg) => r matches Ok(p) && p@ == (ParamsV {
                connection_limit: cfg.0,
                file_path: path_of(s),
                db_name: cfg.1,
            }),
            Option::None => r matches Err(e) && e is InvalidConnectionArguments,
        }
    }
}

proof fn lemma_dec_val_nonneg(d: Seq<char>)
    requires
        forall|j: int| 0 <= j < d.len() ==> is_digit(d[j]),
    ensures
        dec_val(d) >= 0,
    decreases d.len(),
{
    if d.len() > 0 {
        lemma_dec_val_nonneg(d.drop_last());
    }
}

/// Under all-digits, the value of a prefix never exceeds the whole value.
proof fn lemma_dec_val_prefix(d: Seq<char>, k: int)
    requires
        forall|j: int| 0 <= j < d.len() ==> is_digit(d[j]),
        0 <= k <= d.len(),
    ensures
        dec_val(d) >= dec_val(d.take(k)),
    decreases d.len() - k,
{
    if k == d.len() {
        assert(d.take(k) =~= d);
    } else {
        assert(d.take(k + 1).drop_last() =~= d.take(k));
        assert(d.take(k + 1).last() == d[k]);
        lemma_dec_val_nonneg(d.take(k));
        assert(dec_val(d.take(k + 1)) == dec_val(d.take(k)) * 10 + digit_val(d[k]));
        lemma_dec_val_prefix(d, k + 1);
    }
}

/// Parses a `connection_limit` value; the result is exactly `limit_of`.
#[verifier::loop_isolation(false)]
pub fn parse_limit(v: &str) -> (r: Option<u32>)
    ensures
        r == limit_of(v@),
{
    let n = v.unicode_len();
    let start: usize = if n > 0 && v.get_char(0) == '+' {
        1
    } else {
        0
    };
    let ghost d = if v@.len() > 0 && v@[0] == '+' {
        v@.skip(1)
    } else {
        v@
    };
    proof {
        assert(d =~= v@.subrange(start as int, n as int));
    }
    if start >= n {
        return None;
    }
    let mut acc: u64 = 0;
    let mut i: usize = start;
    while i < n
        invariant
            start < n,
            start <= i <= n,
            n == v@.len(),
            d == v@.subrange(start as int, n as int),
            forall|j: int| start <= j < i ==> is_digit(v@[j]),
            acc <= u32::MAX,
            acc == dec_val(v@.subrange(start as int, i as int)),
        decreases n - i,
    {
        let ch = v.get_char(i);
        let cu = ch as u32;
        proof {
            assert(v@[i as int] as u32 == cu);
        }
        if cu < 48 || cu > 57 {
            proof {
                assert(d[i - start] == v@[i as int]);
                assert(!is_digit(d[i - start]));
                assert(!all_digits(d));
                assert(limit_of(v@) is None);
            }
            return None;
        }
        let step: u64 = acc * 10 + ((cu - 48) as u64);
        proof {
            assert(is_digit(v@[i as int]));
            assert(v@.subrange(start as int, i + 1).drop_last() =~= v@.subrange(
                start as int,
                i as int,
            ));
            assert(v@.subrange(start as int, i + 1).last() == v@[i as int]);
            assert(dec_val(v@.subrange(start as int, i + 1)) == acc * 10 + digit_val(
                v@[i as int],
            ));
            assert(dec_val(v@.subrange(start as int, i + 1)) == step);
        }
        if step > 0xffff_ffffu64 {
            proof {
                let p = i + 1 - start;
                assert(d.take(p) =~= v@.subrange(start as int, i + 1));
                assert(dec_val(d.take(p)) > u32::MAX);
                if all_digits(d) {
                    lemma_dec_val_prefix(d, p);
                    assert(dec_val(d) > u32::MAX);
                }
                assert(limit_of(v@) is None);
            }
            return None;
        }
        acc = step;
        i = i + 1;
    }
    proof {
        assert(d =~= v@.subrange(start as int, n as int));
        assert forall|j: int| 0 <= j < d.len() implies is_digit(d[j]) by {
            assert(d[j] == v@[start + j]);
        }
        assert(all_digits(d));
        assert(dec_val(d) == acc);
    }
    if acc == 0 {
        return None;
    }
    Some(acc as u32)
}

/// Whether the address starts with `file:`; exactly `has_file_scheme`.
fn has_scheme(s: &str) -> (b: bool)
    ensures
        b == has_file_scheme(s@),
{
    if s.unicode_len() < 5 {
        return false;
    }
    s.get_char(0) == 'f' && s.get_char(1) == 'i' && s.get_char(2) == 'l' && s.get_char(3) == 'e'
        && s.get_char(4) == ':'
}

/// The default concurrency hint for a given physical core count: twice the
/// count plus one, the count first clamped to a positive value that keeps
/// the result a 32-bit integer.
pub open spec fn default_limit_spec(cores: usize) -> int {
    let c: int = if cores == 0 {
        1
    } else if cores > 0x7fffffff {
        0x7fffffff
    } else {
        cores as int
    };
    2 * c + 1
}

/// Computes the default concurrency hint from a physical core count;
/// exactly `default_limit_spec`.
pub fn default_limit_for(cores: usize) -> (l: u32)
    ensures
        l == default_limit_spec(cores),
        l >= 3,
{
    let cores: usize = if cores == 0 {
        1
    } else {
        cores
    };
    let capped: usize = if cores > 0x7fffffff {
        0x7fffffff
    } else {
        cores
    };
    let c: u32 = capped as u32;
    2 * c + 1
}

/// Holds when `l` is twice the positive 31-bit count `c` plus one: the
/// shape every default concurrency hint has.
pub open spec fn doubled_core_hint(c: u32, l: u32) -> bool {
    1 <= c <= 0x7fffffffu32 && l == 2 * c + 1
}

/// The default concurrency hint of this machine: `default_limit_spec` of
/// the probed physical core count, hence twice a positive 31-bit count
/// plus one.
pub fn default_connection_limit() -> (l: u32)
    ensures
        l >= 3,
        exists|c: u32| #[trigger] doubled_core_hint(c, l),
{
    let cores = engine::physical_core_count();
    let l = default_limit_for(cores);
    proof {
        let w: u32 = ((l - 1) / 2) as u32;
        assert(doubled_core_hint(w, l));
    }
    l
}

/// Parses an address given the two environmental facts the result depends
/// on: whether the path component names an existing directory, and the
/// default concurrency hint. Everything else is deterministic and stated by
/// `parse_post`.
#[verifier::loop_isolation(false)]
pub fn parse_resolved(s: &str, path_is_dir: bool, default_limit: u32) -> (r: Result<
    SqliteParams,
    ConnectorError,
>)
    ensures
        parse_post(r, s@, path_is_dir, default_limit),
{
    let n = s.unicode_len();
    let start: usize = if has_scheme(s) {
        5
    } else {
        0
    };
    let q = find_char(s, start, '?');
    proof {
        assert(path_end(s@) == q);
    }
    let path_str = s.substring_char(start, q);
    proof {
        assert(path_str@ =~= path_of(s@));
    }
    if path_is_dir || path_str.is_empty() {
        return Err(ConnectorError::DatabaseUrlIsInvalid(path_str.to_owned()));
    }
    let mut limit: u32 = default_limit;
    let mut db_name: Option<String> = None;
    if q < n {
        let query = s.substring_char(q + 1, n);
        proof {
            assert(query@ =~= s@.subrange(q + 1, n as int));
        }
        let segs = split_on(query, '&');
        let ghost all = segs.deep_view();
        let mut i: usize = 0;
        proof {
            assert(all.skip(0) =~= all);
        }
        while i < segs.len()
            invariant
                i <= segs@.len(),
                all == segs.deep_view(),
                all == split_chars(query@, '&'),
                fold_params(all, default_limit, None) == fold_params(
                    all.skip(i as int),
                    limit,
                    db_name.deep_view(),
                ),
            decreases segs@.len() - i,
        {
            let seg: &str = segs[i];
            let ghost tail = all.skip(i as int);
            proof {
                assert(tail[0] == all[i as int]);
                assert(all[i as int] == seg@);
                assert(tail.drop_first() =~= all.skip(i + 1));
            }
            let m = seg.unicode_len();
            let e = find_char(seg, 0, '=');
            if e < m {
                let key = seg.substring_char(0, e);
                let val = seg.substring_char(e + 1, m);
                proof {
                    assert(key@ =~= seg@.take(e as int));
                    assert(val@ =~= seg@.skip(e + 1));
                }
                if str_eq(key, "connection_limit") {
                    match parse_limit(val) {
                        Option::Some(l) => {
                            limit = l;
                        },
                        Option::None => {
                            proof {
                                assert(fold_params(tail, limit, db_name.deep_view()) is None);
                                assert(fold_params(all, default_limit, None) is None);
                                assert(query@ == s@.subrange(q + 1, n as int));
                                assert(path_end(s@) < s@.len());
                                assert(params_of(s@, default_limit) == fold_params(
                                    all,
                                    default_limit,
                                    None,
                                ));
                            }
                            return Err(ConnectorError::InvalidConnectionArguments);
                        },
                    }
                } else if str_eq(key, "db_name") {
                    db_name = Some(val.to_owned());
                }
            }
            i = i + 1;
        }
        proof {
            assert(all.skip(all.len() as int) =~= Seq::<Seq<char>>::empty());
        }
    }
    Ok(SqliteParams { connection_limit: limit, file_path: path_str.to_owned(), db_name })
}

impl SqliteParams {
    /// Parses an address string, probing the filesystem for the directory
    /// check and the machine for the default concurrency hint.
    pub fn try_from(path: &str) -> (r: Result<SqliteParams, ConnectorError>)
        ensures
            exists|d: bool, l: u32| #[trigger] parse_post(r, path@, d, l) && l >= 3,
            r matches Ok(p) ==> p@.file_path == path_of(path@) && p@.file_path.len() > 0,
            r matches Ok(p) ==> p@.connection_limit >= 1,
    {
        let limit = default_connection_limit();
        let start: usize = if has_scheme(path) {
            5
        } else {
            0
        };
        let q = find_char(path, start, '?');
        let dir = engine::path_is_dir(path.substring_char(start, q));
        let r = parse_resolved(path, dir, limit);
        proof {
            assert(parse_post(r, path@, dir, limit) && limit >= 3);
            if r is Ok && !dir && path_end(path@) < path@.len() {
                lemma_fold_limit_positive(
                    split_chars(path@.subrange(path_end(path@) + 1, path@.len() as int), '&'),
                    limit,
                    None,
                );
            }
        }
        r
    }
}

/// Law: the scheme prefix is stripped and nothing else. For every address
/// `"file:" ++ rest` whose path component (the part of `rest` before the
/// first `?`) is non-empty and does not name a directory, and whose query
/// block folds, parsing succeeds and keeps exactly that path component as
/// `file_path`, with no scheme prefix retained.
pub proof fn lemma_file_scheme_stripped(
    r: Result<SqliteParams, ConnectorError>,
    rest: Seq<char>,
    l: u32,
)
    requires
        find_from(rest, '?', 0) > 0,
        parse_post(r, "file:"@ + rest, false, l),
        params_of("file:"@ + rest, l) is Some,
    ensures
        r matches Ok(c) && c@.file_path == rest.take(find_from(rest, '?', 0)),
{
    reveal_strlit("file:");
    let s = "file:"@ + rest;
    assert(s[0] == 'f' && s[1] == 'i' && s[2] == 'l' && s[3] == 'e' && s[4] == ':');
    assert(has_file_scheme(s));
    let k = find_from(rest, '?', 0);
    lemma_find_from(rest, '?', 0);
    assert forall|j: int| 5 <= j < 5 + k implies s[j] != '?' by {
        assert(s[j] == rest[j - 5]);
    }
    if k < rest.len() {
        assert(s[5 + k] == rest[k]);
    }
    lemma_find_from_unique(s, '?', 5, 5 + k);
    assert(path_end(s) == 5 + k);
    assert(path_of(s) =~= rest.take(k));
}

/// A fold step never loses positivity of the limit: recognized limits are
/// positive by `limit_of`, so a positive starting limit stays positive.
pub proof fn lemma_fold_limit_positive(segs: Seq<Seq<char>>, limit: u32, db: Option<Seq<char>>)
    requires
        limit >= 1,
    ensures
        fold_params(segs, limit, db) matches Some(cfg) ==> cfg.0 >= 1,
    decreases segs.len(),
{
    if segs.len() > 0 {
        let seg = segs[0];
        let rest = segs.drop_first();
        let e = find_from(seg, '=', 0);
        if 0 <= e < seg.len() {
            let k = seg.take(e);
            let v = seg.skip(e + 1);
            if k == "connection_limit"@ {
                match limit_of(v) {
                    Option::None => {},
                    Option::Some(nl) => {
                        lemma_fold_limit_positive(rest, nl, db);
                    },
                }
            } else if k == "db_name"@ {
                lemma_fold_limit_positive(rest, limit, Some(v));
            } else {
                lemma_fold_limit_positive(rest, limit, db);
            }
        } else {
            lemma_fold_limit_positive(rest, limit, db);
        }
    }
}

/// Any segment `connection_limit=<value>` whose value is not a positive
/// integer makes the whole fold fail, wherever it stands.
pub proof fn lemma_bad_limit_in_fold(
    segs: Seq<Seq<char>>,
    i: int,
    limit: u32,
    db: Option<Seq<char>>,
)
    requires
        0 <= i < segs.len(),
        ({
            let e = find_from(segs[i], '=', 0);
            &&& 0 <= e < segs[i].len()
            &&& segs[i].take(e) == "connection_limit"@
            &&& limit_of(segs[i].skip(e + 1)) is None
        }),
    ensures
        fold_params(segs, limit, db) is None,
    decreases i,
{
    let seg = segs[0];
    let rest = segs.drop_first();
    let e = find_from(seg, '=', 0);
    if i == 0 {
    } else {
        assert(rest[i - 1] == segs[i]);
        if 0 <= e < seg.len() {
            let k = seg.take(e);
            let v = seg.skip(e + 1);
            if k == "connection_limit"@ {
                match limit_of(v) {
                    Option::None => {},
                    Option::Some(nl) => {
                        lemma_bad_limit_in_fold(rest, i - 1, nl, db);
                    },
                }
            } else if k == "db_name"@ {
                lemma_bad_limit_in_fold(rest, i - 1, limit, Some(v));
            } else {
                lemma_bad_limit_in_fold(rest, i - 1, limit, db);
            }
        } else {
            lemma_bad_limit_in_fold(rest, i - 1, limit, db);
        }
    }
}

/// Law: an address whose query block holds a `connection_limit` pair whose
/// value is not a positive integer is rejected as
/// `InvalidConnectionArguments` (given that the path is not a directory).
pub proof fn lemma_invalid_connection_limit_rejected(
    r: Result<SqliteParams, ConnectorError>,
    s: Seq<char>,
    l: u32,
    i: int,
)
    requires
        parse_post(r, s, false, l),
        path_of(s).len() > 0,
        path_end(s) < s.len(),
        ({
            let segs = split_chars(s.subrange(path_end(s) + 1, s.len() as int), '&');
            let e = find_from(segs[i], '=', 0);
            &&& 0 <= i < segs.len()
            &&& 0 <= e < segs[i].len()
            &&& segs[i].take(e) == "connection_limit"@
            &&& limit_of(segs[i].skip(e + 1)) is None
        }),
    ensures
        r matches Err(e) && e is InvalidConnectionArguments,
{
    let segs = split_chars(s.subrange(path_end(s) + 1, s.len() as int), '&');
    lemma_bad_limit_in_fold(segs, i, l, None);
}

} // verus!
