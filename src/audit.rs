//! The security audit trail: the events recorded, the rows read back, and
//! the newest-first read path.

use vstd::prelude::*;
use vstd::string::*;
use crate::text::str_eq;

verus! {

broadcast use
    vstd::seq_lib::group_to_multiset_ensures,
    vstd::seq_lib::group_filter_ensures,
    vstd::multiset::group_multiset_axioms,
;

/// The security events that are recorded.
#[derive(Debug, Clone, Copy, PartialEq, Eq, Structural)]
pub enum AuditAction {
    Login,
    LoginFailed,
    Logout,
    Encrypt,
    EncryptFailed,
    Decrypt,
    DecryptFailed,
    AccessDenied,
}

impl AuditAction {
    /// The verb stored in the `action` column.
    pub open spec fn tag(self) -> Seq<char> {
        match self {
            AuditAction::Login => "login"@,
            AuditAction::LoginFailed => "login_failed"@,
            AuditAction::Logout => "logout"@,
            AuditAction::Encrypt => "encrypt"@,
            AuditAction::EncryptFailed => "encrypt_failed"@,
            AuditAction::Decrypt => "decrypt"@,
            AuditAction::DecryptFailed => "decrypt_failed"@,
            AuditAction::AccessDenied => "access_denied"@,
        }
    }

    pub fn as_str(&self) -> (r: &'static str)
        ensures
            r@ == self.tag(),
    {
        match self {
            AuditAction::Login => "login",
            AuditAction::LoginFailed => "login_failed",
            AuditAction::Logout => "logout",
            AuditAction::Encrypt => "encrypt",
            AuditAction::EncryptFailed => "encrypt_failed",
            AuditAction::Decrypt => "decrypt",
            AuditAction::DecryptFailed => "decrypt_failed",
            AuditAction::AccessDenied => "access_denied",
        }
    }
}

/// The view of an optional string.
pub open spec fn opt_view(o: Option<String>) -> Option<Seq<char>> {
    match o {
        Some(s) => Some(s@),
        None => None,
    }
}

/// One event to append to the trail. `user_id` is `None` where the actor is
/// not known to be a user; `username` is always recorded.
pub struct AuditEntry {
    pub user_id: Option<i32>,
    pub username: String,
    pub action: AuditAction,
    pub resource: Option<String>,
    pub details: Option<String>,
    pub ip_address: Option<String>,
    pub user_agent: Option<String>,
}

impl AuditEntry {
    /// Whether the entry records `action` by `username`, with the given user
    /// id, resource and details, and no client address or agent.
    pub open spec fn records(
        self,
        user_id: Option<i32>,
        username: Seq<char>,
        action: AuditAction,
        resource: Option<Seq<char>>,
        details: Option<Seq<char>>,
    ) -> bool {
        &&& self.user_id == user_id
        &&& self.username@ == username
        &&& self.action == action
        &&& opt_view(self.resource) == resource
        &&& opt_view(self.details) == details
        &&& self.ip_address is None
        &&& self.user_agent is None
    }

    /// An entry with no client address or agent.
    pub fn new(
        user_id: Option<i32>,
        username: String,
        action: AuditAction,
        resource: Option<String>,
        details: Option<String>,
    ) -> (r: AuditEntry)
        ensures
            r.records(user_id, username@, action, opt_view(resource), opt_view(details)),
    {
        AuditEntry { user_id, username, action, resource, details, ip_address: None, user_agent: None }
    }
}

/// A row of the trail as stored. `created_at` is the server time of the
/// append, in microseconds since the Unix epoch (UTC).
pub struct AuditLog {
    pub id: i32,
    pub user_id: Option<i32>,
    pub username: String,
    pub action: String,
    pub resource: Option<String>,
    pub details: Option<String>,
    pub ip_address: Option<String>,
    pub user_agent: Option<String>,
    pub created_at: i64,
}

/// Whether the rows run from the newest to the oldest.
pub open spec fn newest_first(s: Seq<AuditLog>) -> bool {
    forall|i: int, j: int| 0 <= i < j < s.len() ==> s[i].created_at >= s[j].created_at
}

/// How many rows a read with `limit` returns out of `n`.
pub open spec fn page_len(limit: i64, n: nat) -> nat {
    if limit <= 0 {
        0
    } else if limit as nat <= n {
        limit as nat
    } else {
        n
    }
}

/// Whether `page` is a newest-first selection of `len` rows of `all` that
/// leaves out no row newer than one it keeps.
pub open spec fn is_newest_page(page: Seq<AuditLog>, all: Seq<AuditLog>, len: nat) -> bool {
    &&& page.len() == len
    &&& newest_first(page)
    &&& page.to_multiset().subset_of(all.to_multiset())
    &&& forall|x: AuditLog, i: int|
        #![trigger all.to_multiset().count(x), page[i]]
        all.to_multiset().count(x) > page.to_multiset().count(x) && 0 <= i < page.len()
            ==> x.created_at <= page[i].created_at
}

/// Moves the `k` newest rows out of `rows`, newest first.
fn take_newest(rows: Vec<AuditLog>, k: usize) -> (r: Vec<AuditLog>)
    requires
        k <= rows@.len(),
    ensures
        is_newest_page(r@, rows@, k as nat),
{
    let ghost all = rows@;
    let mut rest = rows;
    let mut out: Vec<AuditLog> = Vec::new();
    while out.len() < k
        invariant
            k <= all.len(),
            out@.len() <= k,
            out@.len() + rest@.len() == all.len(),
            out@.to_multiset().add(rest@.to_multiset()) == all.to_multiset(),
            newest_first(out@),
            forall|i: int, j: int|
                0 <= i < out@.len() && 0 <= j < rest@.len() ==> out@[i].created_at
                    >= rest@[j].created_at,
        decreases k - out@.len(),
    {
        let mut m: usize = 0;
        let mut j: usize = 1;
        while j < rest.len()
            invariant
                0 < rest@.len(),
                m < rest@.len(),
                1 <= j <= rest@.len(),
                forall|t: int| 0 <= t < j ==> rest@[t].created_at <= rest@[m as int].created_at,
            decreases rest@.len() - j,
        {
            if rest[j].created_at > rest[m].created_at {
                m = j;
            }
            j = j + 1;
        }
        let ghost before_out = out@;
        let ghost before_rest = rest@;
        let x = rest.remove(m);
        proof {
            assert(before_rest.remove(m as int).to_multiset() == before_rest.to_multiset().remove(x));
            assert(before_out.push(x).to_multiset() == before_out.to_multiset().insert(x));
            assert(before_rest.to_multiset().count(x) > 0);
        }
        out.push(x);
        proof {
            assert(out@.to_multiset().add(rest@.to_multiset()) =~= all.to_multiset());
            assert forall|i: int, j2: int| 0 <= i < out@.len() && 0 <= j2 < rest@.len() implies out@[i].created_at
                >= rest@[j2].created_at by {
                if j2 < m {
                    assert(rest@[j2] == before_rest[j2]);
                } else {
                    assert(rest@[j2] == before_rest[j2 + 1]);
                }
            }
        }
    }
    proof {
        assert forall|x: AuditLog, i: int|
            #![trigger all.to_multiset().count(x), out@[i]]
            all.to_multiset().count(x) > out@.to_multiset().count(x) && 0 <= i < out@.len()
                implies x.created_at <= out@[i].created_at by {
            assert(rest@.to_multiset().count(x) > 0);
            assert(rest@.contains(x));
            let j = choose|j: int| 0 <= j < rest@.len() && rest@[j] == x;
        }
    }
    out
}

/// The `limit` newest rows (none for a limit below one), newest first.
pub fn list_audit_logs(logs: Vec<AuditLog>, limit: i64) -> (r: Vec<AuditLog>)
    ensures
        is_newest_page(r@, logs@, page_len(limit, logs@.len())),
{
    let n = logs.len();
    let k: usize = if limit <= 0 {
        0
    } else if (limit as u64) <= (n as u64) {
        limit as usize
    } else {
        n
    };
    take_newest(logs, k)
}

/// The rows recorded for `username`.
pub open spec fn rows_of(logs: Seq<AuditLog>, username: Seq<char>) -> Seq<AuditLog> {
    logs.filter(|l: AuditLog| l.username@ == username)
}

/// The `limit` newest rows recorded for `username`, newest first.
pub fn list_audit_logs_by_user(logs: Vec<AuditLog>, username: &str, limit: i64) -> (r: Vec<AuditLog>)
    ensures
        is_newest_page(
            r@,
            rows_of(logs@, username@),
            page_len(limit, rows_of(logs@, username@).len()),
        ),
        forall|i: int| 0 <= i < r@.len() ==> (#[trigger] r@[i]).username@ == username@,
{
    let ghost all = logs@;
    let mut rest = logs;
    let mut kept: Vec<AuditLog> = Vec::new();
    while rest.len() > 0
        invariant
            rest@.len() <= all.len(),
            rows_of(all.subrange(0, all.len() - rest@.len()), username@) == kept@,
            rest@ == all.subrange(all.len() - rest@.len(), all.len() as int),
        decreases rest@.len(),
    {
        let ghost done = all.len() - rest@.len();
        let x = rest.remove(0);
        proof {
            assert(all.subrange(0, done + 1).drop_last() =~= all.subrange(0, done));
            assert(all.subrange(0, done + 1).last() == x);
            assert(rest@ =~= all.subrange(done + 1, all.len() as int));
        }
        let ghost prefix = all.subrange(0, done + 1);
        proof {
            reveal(Seq::filter);
            assert(prefix.len() > 0);
            assert(prefix.last() == x);
        }
        if str_eq(x.username.as_str(), username) {
            kept.push(x);
            assert(rows_of(prefix, username@) == rows_of(prefix.drop_last(), username@).push(x));
        } else {
            assert(rows_of(prefix, username@) == rows_of(prefix.drop_last(), username@));
        }
    }
    proof {
        assert(all.subrange(0, all.len() as int) =~= all);
    }
    let r = list_audit_logs(kept, limit);
    proof {
        assert forall|i: int| 0 <= i < r@.len() implies (#[trigger] r@[i]).username@ == username@ by {
            assert(r@.to_multiset().count(r@[i]) > 0);
            assert(rows_of(all, username@).contains(r@[i]));
        }
    }
    r
}

/// What a display cell shows for an optional value: the value, or a dash.
pub open spec fn or_dash(o: Option<String>) -> Seq<char> {
    match o {
        Some(s) => s@,
        None => "-"@,
    }
}

fn dash_if_none(o: Option<String>) -> (r: String)
    ensures
        r@ == or_dash(o),
{
    match o {
        Some(s) => s,
        None => String::from_str("-"),
    }
}

/// A row of the audit log page.
pub struct AuditLogDisplay {
    pub id: i32,
    pub username: String,
    pub action: String,
    pub resource: String,
    pub details: String,
    pub ip_address: String,
    pub created_at: String,
}

impl AuditLogDisplay {
    /// Whether the row shows `log`, stamped with `created_at` as local time text.
    pub open spec fn shows(self, log: AuditLog, created_at: Seq<char>) -> bool {
        &&& self.id == log.id
        &&& self.username@ == log.username@
        &&& self.action@ == log.action@
        &&& self.resource@ == or_dash(log.resource)
        &&& self.details@ == or_dash(log.details)
        &&& self.ip_address@ == or_dash(log.ip_address)
        &&& self.created_at@ == created_at
    }

    /// The row for `log`; `created_at` is its time as the page shows it.
    pub fn from_log(log: AuditLog, created_at: String) -> (r: AuditLogDisplay)
        ensures
            r.shows(log, created_at@),
    {
        AuditLogDisplay {
            id: log.id,
            username: log.username,
            action: log.action,
            resource: dash_if_none(log.resource),
            details: dash_if_none(log.details),
            ip_address: dash_if_none(log.ip_address),
            created_at,
        }
    }
}

/// The audit log page.
pub struct AuditLogsTemplate {
    pub logs: Vec<AuditLogDisplay>,
}

impl AuditLogsTemplate {
    /// One row per log, in the given order, each with its time text.
    pub fn from_logs(rows: Vec<(AuditLog, String)>) -> (r: AuditLogsTemplate)
        ensures
            r.logs@.len() == rows@.len(),
            forall|i: int|
                0 <= i < rows@.len() ==> (#[trigger] r.logs@[i]).shows(rows@[i].0, rows@[i].1@),
    {
        let ghost all = rows@;
        let mut rest = rows;
        let mut out: Vec<AuditLogDisplay> = Vec::new();
        while rest.len() > 0
            invariant
                out@.len() + rest@.len() == all.len(),
                rest@ == all.subrange(out@.len() as int, all.len() as int),
                forall|i: int| 0 <= i < out@.len() ==> (#[trigger] out@[i]).shows(all[i].0, all[i].1@),
            decreases rest@.len(),
        {
            let ghost k: int = out@.len() as int;
            let (log, when) = rest.remove(0);
            assert(rest@ =~= all.subrange(k + 1, all.len() as int));
            out.push(AuditLogDisplay::from_log(log, when));
        }
        AuditLogsTemplate { logs: out }
    }
}

} // verus!
