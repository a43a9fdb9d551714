//! Backups of the data directory: judging an archive's contents and reporting on it.
//! Reading and writing the archives is left to the caller.

use vstd::prelude::*;

use crate::error::BeaconError;
use crate::text::{concat, concat3, decimal, join_strings, joined, str_eq, u64_to_string, views};

verus! {

/// Result of backup verification.
#[derive(Debug, Clone)]
pub struct BackupVerification {
    /// Whether the backup is valid
    pub valid: bool,
    /// List of files found in the backup
    pub files: Vec<String>,
    /// Any issues found
    pub issues: Vec<String>,
}

/// A backup must hold the database.
pub open spec fn holds_database(files: Seq<String>) -> bool {
    exists|i: int| 0 <= i < files.len() && (#[trigger] files[i])@ == "beacon.db"@
}

/// Judge a backup by the names of the files it holds, in archive order.
pub fn assess_backup(files: Vec<String>) -> (r: BackupVerification)
    ensures
        r.files@ == files@,
        holds_database(files@) ==> r.valid && r.issues@.len() == 0,
        !holds_database(files@) ==> !r.valid && views(r.issues@) == seq!["backup does not contain beacon.db"@],
{
    let mut has_db = false;
    let mut i: usize = 0;
    while i < files.len()
        invariant
            i <= files@.len(),
            has_db <==> exists|m: int| 0 <= m < i && (#[trigger] files@[m])@ == "beacon.db"@,
        decreases files@.len() - i,
    {
        if str_eq(files[i].as_str(), "beacon.db") {
            has_db = true;
        }
        i = i + 1;
    }
    let mut issues: Vec<String> = Vec::new();
    if !has_db {
        issues.push(String::from_str("backup does not contain beacon.db"));
        proof {
            assert(views(issues@) =~= seq!["backup does not contain beacon.db"@]);
        }
    }
    let valid = issues.len() == 0;
    BackupVerification { valid, files, issues }
}

/// The lines reported after verifying a backup: a summary, then each file, then each issue.
pub open spec fn report_lines(v: BackupVerification) -> Seq<Seq<char>> {
    let summary = "backup "@ + (if v.valid {
        "valid"@
    } else {
        "INVALID"@
    }) + ": "@ + decimal(v.files@.len()) + " files, "@ + (if v.issues@.len() == 0 {
        "no issues"@
    } else {
        decimal(v.issues@.len()) + " issue(s)"@
    });
    seq![summary] + views(v.files@).map_values(|f: Seq<char>| "  "@ + f) + views(v.issues@).map_values(
        |i: Seq<char>| "  [!] "@ + i,
    )
}

fn push_prefixed(out: &mut Vec<String>, prefix: &str, items: &Vec<String>)
    ensures
        views(final(out)@) == views(old(out)@) + views(items@).map_values(|f: Seq<char>| prefix@ + f),
{
    let ghost start = views(out@);
    let mut i: usize = 0;
    while i < items.len()
        invariant
            i <= items@.len(),
            views(out@) == start + views(items@.take(i as int)).map_values(|f: Seq<char>| prefix@ + f),
        decreases items@.len() - i,
    {
        let ghost before = views(out@);
        let line = concat(prefix, items[i].as_str());
        out.push(line);
        proof {
            assert(views(out@) =~= before.push(line@));
            let p1 = views(items@.take(i as int));
            let p2 = views(items@.take(i + 1));
            assert(p2 =~= p1.push(items@[i as int]@));
            assert(p2.map_values(|f: Seq<char>| prefix@ + f) =~= p1.map_values(|f: Seq<char>| prefix@ + f).push(
                prefix@ + items@[i as int]@,
            ));
            assert(views(out@) =~= start + p2.map_values(|f: Seq<char>| prefix@ + f));
        }
        i = i + 1;
    }
    proof {
        assert(items@.take(items@.len() as int) =~= items@);
    }
}

/// The report on a verified backup, line by line.
pub fn backup_report(v: &BackupVerification) -> (r: Vec<String>)
    ensures
        views(r@) == report_lines(*v),
{
    let state = if v.valid {
        "valid"
    } else {
        "INVALID"
    };
    let n = u64_to_string(v.files.len() as u64);
    let issues = if v.issues.len() == 0 {
        String::from_str("no issues")
    } else {
        let k = u64_to_string(v.issues.len() as u64);
        concat(k.as_str(), " issue(s)")
    };
    proof {
        reveal_strlit("valid");
        reveal_strlit("INVALID");
    }
    let a = concat3("backup ", state, ": ");
    let b = concat3(a.as_str(), n.as_str(), " files, ");
    let summary = concat(b.as_str(), issues.as_str());
    let mut out: Vec<String> = Vec::new();
    out.push(summary);
    push_prefixed(&mut out, "  ", &v.files);
    push_prefixed(&mut out, "  [!] ", &v.issues);
    proof {
        assert(views(out@) =~= report_lines(*v));
    }
    out
}

/// A backup is restored only if it verified; otherwise the restore fails with its issues.
pub fn restore_allowed(v: &BackupVerification) -> (r: Result<(), BeaconError>)
    ensures
        v.valid ==> r is Ok,
        !v.valid ==> r is Err && r->Err_0 is Config && r->Err_0.spec_message() == "backup verification failed: "@
            + joined(views(v.issues@), ", "@),
{
    if v.valid {
        Ok(())
    } else {
        let list = join_strings(&v.issues, ", ");
        Err(BeaconError::Config(concat("backup verification failed: ", list.as_str())))
    }
}

/// The default name of a backup made at the given timestamp (`%Y%m%d-%H%M%S`).
pub fn backup_file_name(timestamp: &str) -> (r: String)
    ensures
        r@ == "beacon-backup-"@ + timestamp@ + ".tar.gz"@,
{
    concat3("beacon-backup-", timestamp, ".tar.gz")
}

} // verus!
