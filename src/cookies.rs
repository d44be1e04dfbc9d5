//! Selection of session credentials from the rows of a browser cookie store.
use vstd::prelude::*;

verus! {

/// One row of the browser's cookie table, as read from the store.
pub struct CookieRow {
    pub name: String,
    pub value: String,
    pub host: String,
    pub path: String,
    pub http_only: bool,
    pub expiry: Option<i64>,
    pub origin_attributes: String,
}

/// One session credential kept for replay.
pub struct CredentialRecord {
    pub name: String,
    pub value: String,
    pub domain: String,
    pub path: String,
    pub http_only: bool,
    pub expiry: Option<i64>,
}

/// The mathematical value of a credential record.
pub struct CredentialView {
    pub name: Seq<char>,
    pub value: Seq<char>,
    pub domain: Seq<char>,
    pub path: Seq<char>,
    pub http_only: bool,
    pub expiry: Option<i64>,
}

impl View for CredentialRecord {
    type V = CredentialView;

    open spec fn view(&self) -> CredentialView {
        CredentialView {
            name: self.name@,
            value: self.value@,
            domain: self.domain@,
            path: self.path@,
            http_only: self.http_only,
            expiry: self.expiry,
        }
    }
}

impl CookieRow {
    /// The credential that this row stands for.
    pub open spec fn credential(&self) -> CredentialView {
        CredentialView {
            name: self.name@,
            value: self.value@,
            domain: self.host@,
            path: self.path@,
            http_only: self.http_only,
            expiry: self.expiry,
        }
    }
}

/// Which of several rows sharing a cookie name survives.
#[derive(Clone, Copy, PartialEq, Eq, Structural, Debug)]
pub enum DedupPolicy {
    /// The first row met in store order wins.
    KeepFirst,
    /// The last row met in store order wins.
    KeepLast,
}

/// Why no credential set could be produced.
#[derive(Clone, Copy, PartialEq, Eq, Structural, Debug)]
pub enum ExtractError {
    /// The store could not be opened or read.
    StoreUnavailable,
    /// A credential that the caller requires is not among the selected rows.
    NotFound,
}

/// A host matches a target domain exactly or in its leading-dot form.
pub open spec fn host_matches(host: Seq<char>, domain: Seq<char>) -> bool {
    host == domain || host == seq!['.'] + domain
}

/// A row is in scope: its host matches one of the targets, its value is not
/// empty and it carries no origin attributes (no container or partitioned cookie).
pub open spec fn in_scope(row: CookieRow, targets: Seq<String>) -> bool {
    &&& row.value@.len() > 0
    &&& row.origin_attributes@.len() == 0
    &&& exists|j: int| 0 <= j < targets.len() && #[trigger] host_matches(row.host@, targets[j]@)
}

/// Among the first `n` rows, row `k` is the one kept for its name under `policy`.
pub open spec fn kept_among(
    rows: Seq<CookieRow>,
    targets: Seq<String>,
    policy: DedupPolicy,
    n: int,
    k: int,
) -> bool {
    &&& 0 <= k < n <= rows.len()
    &&& in_scope(rows[k], targets)
    &&& match policy {
        DedupPolicy::KeepFirst => forall|m: int|
            0 <= m < k && #[trigger] in_scope(rows[m], targets) ==> rows[m].name@ != rows[k].name@,
        DedupPolicy::KeepLast => forall|m: int|
            k < m < n && #[trigger] in_scope(rows[m], targets) ==> rows[m].name@ != rows[k].name@,
    }
}

/// Row `k` is the one kept for its name under `policy`.
pub open spec fn kept(rows: Seq<CookieRow>, targets: Seq<String>, policy: DedupPolicy, k: int) -> bool {
    kept_among(rows, targets, policy, rows.len() as int, k)
}

/// Some row in scope carries the name `name`.
pub open spec fn name_in_scope(rows: Seq<CookieRow>, targets: Seq<String>, name: Seq<char>) -> bool {
    exists|k: int| 0 <= k < rows.len() && #[trigger] in_scope(rows[k], targets) && rows[k].name@ == name
}

/// `c` is the credential of a row kept among the first `n`.
pub open spec fn is_kept_record(
    rows: Seq<CookieRow>,
    targets: Seq<String>,
    policy: DedupPolicy,
    n: int,
    c: CredentialView,
) -> bool {
    exists|k: int| #[trigger] kept_among(rows, targets, policy, n, k) && c == rows[k].credential()
}

/// No two records of `out` share a name.
pub open spec fn names_distinct(out: Seq<CredentialRecord>) -> bool {
    forall|i: int, j: int| 0 <= i < out.len() && 0 <= j < out.len() && i != j
        ==> out[i]@.name != out[j]@.name
}

/// `out` is the credential set of the first `n` rows: one record per name in
/// scope among them, and for each name the record of the row that `policy` keeps.
pub open spec fn is_credential_set_among(
    rows: Seq<CookieRow>,
    targets: Seq<String>,
    policy: DedupPolicy,
    n: int,
    out: Seq<CredentialRecord>,
) -> bool {
    &&& forall|i: int| 0 <= i < out.len() ==> #[trigger] is_kept_record(rows, targets, policy, n, out[i]@)
    &&& forall|k: int| 0 <= k < n && #[trigger] in_scope(rows[k], targets)
        ==> exists|i: int| 0 <= i < out.len() && #[trigger] out[i]@.name == rows[k].name@
    &&& names_distinct(out)
}

/// `out` holds exactly one record per name in scope: for each, the record
/// of the row that `policy` keeps.
pub open spec fn is_credential_set(
    rows: Seq<CookieRow>,
    targets: Seq<String>,
    policy: DedupPolicy,
    out: Seq<CredentialRecord>,
) -> bool {
    is_credential_set_among(rows, targets, policy, rows.len() as int, out)
}

pub(crate) fn str_eq(a: &String, b: &String) -> (r: bool)
    ensures
        r == (a@ == b@),
{
    a.eq(b)
}

/// Whether `host` matches `domain` exactly or in its leading-dot form.
pub fn host_matches_domain(host: &String, domain: &String) -> (r: bool)
    ensures
        r == host_matches(host@, domain@),
{
    if str_eq(host, domain) {
        return true;
    }
    let dotted = String::from_str(".").concat(domain.as_str());
    proof {
        reveal_strlit(".");
        assert("."@ =~= seq!['.']);
    }
    str_eq(host, &dotted)
}

/// Whether `row` is in scope for the target domains.
pub fn row_in_scope(row: &CookieRow, targets: &Vec<String>) -> (r: bool)
    ensures
        r == in_scope(*row, targets@),
{
    if row.value.as_str().is_empty() || !row.origin_attributes.as_str().is_empty() {
        return false;
    }
    let mut j: usize = 0;
    while j < targets.len()
        invariant
            j <= targets.len(),
            row.value@.len() > 0,
            row.origin_attributes@.len() == 0,
            forall|m: int| 0 <= m < j ==> !#[trigger] host_matches(row.host@, targets@[m]@),
        decreases targets.len() - j,
    {
        if host_matches_domain(&row.host, &targets[j]) {
            assert(host_matches(row.host@, targets@[j as int]@));
            return true;
        }
        j = j + 1;
    }
    false
}

/// The record that `row` stands for.
pub fn credential_of(row: &CookieRow) -> (r: CredentialRecord)
    ensures
        r@ == row.credential(),
{
    CredentialRecord {
        name: row.name.clone(),
        value: row.value.clone(),
        domain: row.host.clone(),
        path: row.path.clone(),
        http_only: row.http_only,
        expiry: row.expiry,
    }
}

/// The position of the record named `name` in `out`, if there is one.
pub fn position_of_name(out: &Vec<CredentialRecord>, name: &String) -> (r: Option<usize>)
    ensures
        r matches Some(i) ==> i < out@.len() && out@[i as int]@.name == name@,
        r is None ==> forall|i: int| 0 <= i < out@.len() ==> #[trigger] out@[i]@.name != name@,
{
    let mut i: usize = 0;
    while i < out.len()
        invariant
            i <= out@.len(),
            forall|m: int| 0 <= m < i ==> #[trigger] out@[m]@.name != name@,
        decreases out.len() - i,
    {
        if str_eq(&out[i].name, name) {
            return Some(i);
        }
        i = i + 1;
    }
    None
}

/// Selects the credentials in scope for `targets` from the store's rows, one
/// per cookie name, the survivor among rows of one name chosen by `policy`.
/// Fails with `NotFound` exactly when `required` names a cookie that no row
/// in scope carries.
pub fn select_credentials(
    rows: &Vec<CookieRow>,
    targets: &Vec<String>,
    policy: DedupPolicy,
    required: &Option<String>,
) -> (r: Result<Vec<CredentialRecord>, ExtractError>)
    ensures
        r matches Ok(out) ==> is_credential_set(rows@, targets@, policy, out@),
        r matches Err(e) ==> e == ExtractError::NotFound,
        r is Err <==> (required matches Some(n) && !name_in_scope(rows@, targets@, n@)),
{
    let mut out: Vec<CredentialRecord> = Vec::new();
    let mut k: usize = 0;
    while k < rows.len()
        invariant
            k <= rows@.len(),
            is_credential_set_among(rows@, targets@, policy, k as int, out@),
        decreases rows.len() - k,
    {
        let ghost old_out = out@;
        let row = &rows[k];
        if row_in_scope(row, targets) {
            let pos = position_of_name(&out, &row.name);
            match pos {
                Some(p) => {
                    if policy == DedupPolicy::KeepLast {
                        out.set(p, credential_of(row));
                        assert(kept_among(rows@, targets@, policy, k + 1, k as int));
                        assert forall|i: int| 0 <= i < out@.len() implies is_kept_record(rows@, targets@, policy, k + 1, out@[i]@) by {
                            if i != p {
                                assert(is_kept_record(rows@, targets@, policy, k as int, old_out[i]@));
                                let q = choose|q: int| #[trigger] kept_among(rows@, targets@, policy, k as int, q)
                                    && old_out[i]@ == rows@[q].credential();
                                assert(kept_among(rows@, targets@, policy, k + 1, q));
                            }
                        }
                        assert forall|m: int| 0 <= m < k + 1 && #[trigger] in_scope(rows@[m], targets@)
                            implies exists|i: int| 0 <= i < out@.len() && #[trigger] out@[i]@.name == rows@[m].name@ by {
                            if m < k {
                                let i = choose|i: int| 0 <= i < old_out.len() && #[trigger] old_out[i]@.name == rows@[m].name@;
                                assert(out@[i]@.name == rows@[m].name@);
                            } else {
                                assert(out@[p as int]@.name == rows@[m].name@);
                            }
                        }
                    } else {
                        assert forall|i: int| 0 <= i < out@.len() implies is_kept_record(rows@, targets@, policy, k + 1, out@[i]@) by {
                            assert(is_kept_record(rows@, targets@, policy, k as int, old_out[i]@));
                            let q = choose|q: int| #[trigger] kept_among(rows@, targets@, policy, k as int, q)
                                && old_out[i]@ == rows@[q].credential();
                            assert(kept_among(rows@, targets@, policy, k + 1, q));
                        }
                        assert(out@[p as int]@.name == rows@[k as int].name@);
                    }
                },
                None => {
                    out.push(credential_of(row));
                    assert forall|m: int| 0 <= m < k && #[trigger] in_scope(rows@[m], targets@)
                        implies rows@[m].name@ != rows@[k as int].name@ by {
                        let i = choose|i: int| 0 <= i < old_out.len() && #[trigger] old_out[i]@.name == rows@[m].name@;
                    }
                    assert(kept_among(rows@, targets@, policy, k + 1, k as int));
                    assert forall|i: int| 0 <= i < out@.len() implies is_kept_record(rows@, targets@, policy, k + 1, out@[i]@) by {
                        if i < old_out.len() {
                            assert(is_kept_record(rows@, targets@, policy, k as int, old_out[i]@));
                            let q = choose|q: int| #[trigger] kept_among(rows@, targets@, policy, k as int, q)
                                && old_out[i]@ == rows@[q].credential();
                            assert(out@[i] == old_out[i]);
                            assert(kept_among(rows@, targets@, policy, k + 1, q));
                        } else {
                            assert(out@[i]@ == rows@[k as int].credential());
                        }
                    }
                    assert forall|m: int| 0 <= m < k + 1 && #[trigger] in_scope(rows@[m], targets@)
                        implies exists|i: int| 0 <= i < out@.len() && #[trigger] out@[i]@.name == rows@[m].name@ by {
                        if m < k {
                            let i = choose|i: int| 0 <= i < old_out.len() && #[trigger] old_out[i]@.name == rows@[m].name@;
                            assert(out@[i] == old_out[i]);
                        } else {
                            assert(out@[old_out.len() as int]@.name == rows@[m].name@);
                        }
                    }
                },
            }
        } else {
            assert forall|i: int| 0 <= i < out@.len() implies is_kept_record(rows@, targets@, policy, k + 1, out@[i]@) by {
                assert(is_kept_record(rows@, targets@, policy, k as int, old_out[i]@));
                let q = choose|q: int| #[trigger] kept_among(rows@, targets@, policy, k as int, q)
                    && old_out[i]@ == rows@[q].credential();
                assert(kept_among(rows@, targets@, policy, k + 1, q));
            }
        }
        k = k + 1;
    }
    match required {
        Some(n) => {
            match position_of_name(&out, n) {
                Some(i) => {
                    assert(is_kept_record(rows@, targets@, policy, rows@.len() as int, out@[i as int]@));
                    let ghost q = choose|q: int| #[trigger] kept_among(rows@, targets@, policy, rows@.len() as int, q)
                        && out@[i as int]@ == rows@[q].credential();
                    assert(in_scope(rows@[q], targets@) && rows@[q].name@ == n@);
                },
                None => {
                    assert forall|m: int| 0 <= m < rows@.len() && #[trigger] in_scope(rows@[m], targets@)
                        implies rows@[m].name@ != n@ by {
                        let i = choose|i: int| 0 <= i < out@.len() && #[trigger] out@[i]@.name == rows@[m].name@;
                    }
                    return Err(ExtractError::NotFound);
                },
            }
        },
        None => {},
    }
    Ok(out)
}

/// In a credential set every cookie name in scope has exactly one record,
/// however many rows carry it.
pub proof fn lemma_one_record_per_name(
    rows: Seq<CookieRow>,
    targets: Seq<String>,
    policy: DedupPolicy,
    out: Seq<CredentialRecord>,
    name: Seq<char>,
)
    requires
        is_credential_set(rows, targets, policy, out),
        name_in_scope(rows, targets, name),
    ensures
        exists|i: int| 0 <= i < out.len() && #[trigger] out[i]@.name == name,
        forall|i: int, j: int|
            0 <= i < out.len() && 0 <= j < out.len() && out[i]@.name == name && out[j]@.name == name
                ==> i == j,
{
    let k = choose|k: int| 0 <= k < rows.len() && #[trigger] in_scope(rows[k], targets) && rows[k].name@ == name;
    assert(in_scope(rows[k], targets));
}

/// The cookie line for `c`, in the form `name=value; Domain=d; Path=p; HttpOnly;`,
/// with an empty attribute in place of `HttpOnly` when the flag is clear.
pub open spec fn cookie_line_text(c: CredentialView) -> Seq<char> {
    c.name + "="@ + c.value + "; Domain="@ + c.domain + "; Path="@ + c.path + "; "@
        + (if c.http_only { "HttpOnly"@ } else { Seq::<char>::empty() }) + ";"@
}

/// The cookie line that presents `rec` to the target service.
pub fn cookie_line(rec: &CredentialRecord) -> (r: String)
    ensures
        r@ == cookie_line_text(rec@),
{
    let mut s = rec.name.clone();
    s.append("=");
    s.append(rec.value.as_str());
    s.append("; Domain=");
    s.append(rec.domain.as_str());
    s.append("; Path=");
    s.append(rec.path.as_str());
    s.append("; ");
    if rec.http_only {
        s.append("HttpOnly");
    }
    s.append(";");
    s
}

/// The cookie lines of a whole credential set, in order.
pub fn cookie_lines(creds: &Vec<CredentialRecord>) -> (r: Vec<String>)
    ensures
        r@.len() == creds@.len(),
        forall|i: int| 0 <= i < r@.len() ==> #[trigger] r@[i]@ == cookie_line_text(creds@[i]@),
{
    let mut r: Vec<String> = Vec::new();
    let mut i: usize = 0;
    while i < creds.len()
        invariant
            i <= creds@.len(),
            r@.len() == i,
            forall|m: int| 0 <= m < i ==> #[trigger] r@[m]@ == cookie_line_text(creds@[m]@),
        decreases creds.len() - i,
    {
        r.push(cookie_line(&creds[i]));
        i = i + 1;
    }
    r
}

} // verus!
