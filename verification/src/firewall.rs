//! The firewall rule that blocks outbound traffic, and how `netsh` output is
//! read back.

use vstd::prelude::*;
use crate::text::{is_trim, trim_text};

verus! {

/// Name of the outbound block rule.
pub const FIREWALL_RULE_NAME: &'static str = "KidInternetLock_Outbound_Block";

/// Switches the internet off and on with a Windows Firewall rule.
pub struct FirewallManager;

/// The output of a failed `netsh` run to report: its error output when
/// non-empty, else its standard output.
pub open spec fn failure_source(stderr: Seq<char>, stdout: Seq<char>) -> Seq<char> {
    if stderr.len() > 0 { stderr } else { stdout }
}

/// `pattern` occurs in `text` at position `i`.
pub open spec fn occurs_at(text: Seq<char>, pattern: Seq<char>, i: int) -> bool {
    0 <= i && i + pattern.len() <= text.len() && text.subrange(i, i + pattern.len()) == pattern
}

/// Whether `pattern` occurs in `text` (`str::contains`).
pub fn text_contains(text: &str, pattern: &str) -> (b: bool)
    ensures
        b == exists|i: int| occurs_at(text@, pattern@, i),
{
    let n = text.unicode_len();
    let m = pattern.unicode_len();
    if m > n {
        return false;
    }
    let mut i: usize = 0;
    while i <= n - m
        invariant
            n == text@.len(),
            m == pattern@.len(),
            m <= n,
            i <= n - m + 1,
            forall|k: int| 0 <= k < i ==> !occurs_at(text@, pattern@, k),
        decreases n - i,
    {
        let mut j: usize = 0;
        let mut same = true;
        while j < m
            invariant
                j <= m,
                i + m <= n,
                n == text@.len(),
                m == pattern@.len(),
                same == (forall|k: int| 0 <= k < j ==> text@[i + k] == pattern@[k]),
            decreases m - j,
        {
            if text.get_char(i + j) != pattern.get_char(j) {
                same = false;
            }
            j = j + 1;
        }
        if same {
            proof {
                assert(text@.subrange(i as int, i + m) =~= pattern@);
                assert(occurs_at(text@, pattern@, i as int));
            }
            return true;
        }
        proof {
            if occurs_at(text@, pattern@, i as int) {
                let k = choose|k: int| 0 <= k < m && text@[i + k] != pattern@[k];
                assert(text@.subrange(i as int, i + m)[k] == text@[i + k]);
            }
        }
        i = i + 1;
    }
    proof {
        assert forall|k: int| #![trigger occurs_at(text@, pattern@, k)] !occurs_at(text@, pattern@, k) by {
            if k >= i {
                assert(k + m > n);
            }
        }
    }
    false
}

impl FirewallManager {
    /// The `name=` argument that selects the rule in `netsh`.
    pub fn rule_name_arg() -> (s: String)
        ensures
            s@ == "name="@ + FIREWALL_RULE_NAME@,
    {
        let mut s = String::from_str("name=");
        s.append(FIREWALL_RULE_NAME);
        s
    }

    /// Whether `netsh advfirewall firewall show rule` output lists the rule.
    pub fn rule_listed(output: &str) -> (b: bool)
        ensures
            b == exists|i: int| occurs_at(output@, FIREWALL_RULE_NAME@, i),
    {
        text_contains(output, FIREWALL_RULE_NAME)
    }

    /// The detail of a failed `netsh` run: its error output when non-empty,
    /// else its standard output, trimmed.
    pub fn failure_detail(stderr: &str, stdout: &str) -> (s: String)
        ensures
            is_trim(failure_source(stderr@, stdout@), s@),
    {
        if !stderr.is_empty() { trim_text(stderr) } else { trim_text(stdout) }
    }

    /// The error when turning the firewall on failed.
    pub fn enable_failed_message(stderr: &str, stdout: &str) -> (s: String)
        ensures
            exists|d: Seq<char>| is_trim(failure_source(stderr@, stdout@), d) && s@ == "Failed to enable Windows Firewall: "@ + d,
    {
        let d = FirewallManager::failure_detail(stderr, stdout);
        let mut s = String::from_str("Failed to enable Windows Firewall: ");
        s.append(d.as_str());
        s
    }

    /// The error when adding the block rule failed.
    pub fn block_failed_message(stderr: &str, stdout: &str) -> (s: String)
        ensures
            exists|d: Seq<char>| is_trim(failure_source(stderr@, stdout@), d) && s@ == "Firewall block rule failed: "@ + d,
    {
        let d = FirewallManager::failure_detail(stderr, stdout);
        let mut s = String::from_str("Firewall block rule failed: ");
        s.append(d.as_str());
        s
    }
}

} // verus!
