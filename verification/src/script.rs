//! Builder for the first-boot provisioning script that installs and
//! configures the overlay-VPN agent on the new instance.
//!
//! The script is the fixed template below with the secret join key spliced
//! in at exactly one place; the builder is deterministic in the key.

use vstd::prelude::*;
use crate::text::copy_chars;
use crate::text::str_to_chars;

verus! {

/// The part of the bootstrap script that precedes the join key.
pub const SCRIPT_PREFIX: &'static str = r#"#cloud-config
    packages:
      - curl
      - wget

    runcmd:
      # Install Tailscale
      - ['sh', '-c', 'curl -fsSL https://tailscale.com/install.sh | sh']

      # Configure IP forwarding
      - ['sh', '-c', 'echo "net.ipv4.ip_forward = 1" | tee -a /etc/sysctl.d/99-tailscale.conf']
      - ['sh', '-c', 'echo "net.ipv6.conf.all.forwarding = 1" | tee -a /etc/sysctl.d/99-tailscale.conf']
      - ['sysctl', '-p', '/etc/sysctl.d/99-tailscale.conf']

      # Clean up any existing machine identity
      # See: https://github.com/tailscale/tailscale/issues/9382
      - ['systemctl', 'stop', 'tailscaled']
      - ['sh', '-c', 'rm -rf /var/lib/tailscale/* || true']

      # Start Tailscale daemon with clean state
      - ['systemctl', 'enable', 'tailscaled']
      - ['systemctl', 'start', 'tailscaled']

      # Wait for daemon to be ready
      - ['sleep', '10']

      # Connect to Tailscale with auth key (with retry logic)
      - ['sh', '-c', 'for i in {1..10}; do if tailscale up --reset --force-reauth --auth-key="#;

/// The part of the bootstrap script that follows the join key.
pub const SCRIPT_SUFFIX: &'static str = r#" --accept-routes --advertise-exit-node; then echo "Tailscale connected successfully on attempt $i"; break; else echo "Attempt $i failed, retrying in 1 second..."; sleep 1; fi; done']

      # Enable SSH access
      - ['tailscale', 'set', '--ssh']

      # Log success
      - ['sh', '-c', 'echo "SUCCESS: Tailscale connected at $(date)" > /var/log/tailscale-success.log']
      - ['sh', '-c', 'tailscale status >> /var/log/tailscale-success.log 2>&1']

    final_message: "Cloud-init complete. Tailscale setup finished."
    "#;

/// The bootstrap script generated for a given join key: the fixed template
/// with the key spliced in between prefix and suffix.
pub open spec fn script_of(key: Seq<char>) -> Seq<char> {
    SCRIPT_PREFIX@ + key + SCRIPT_SUFFIX@
}

/// Builds the bootstrap script for the given join key.  The result is the
/// fixed template with the key embedded verbatim: nothing else in the output
/// depends on the key, so no masked or partial form of it can appear.
pub fn build_cloud_init_script(auth_key: &Vec<char>) -> (script: Vec<char>)
    ensures
        script@ == script_of(auth_key@),
{
    let mut script = str_to_chars(SCRIPT_PREFIX);
    let mut key = copy_chars(auth_key);
    script.append(&mut key);
    let mut suffix = str_to_chars(SCRIPT_SUFFIX);
    script.append(&mut suffix);
    script
}

// ---------------------------------------------------------------------------
// Occurrence counting
// ---------------------------------------------------------------------------

/// Whether `k` occurs in `s` starting at position `i`.
pub open spec fn occurs_at(s: Seq<char>, k: Seq<char>, i: int) -> bool {
    0 <= i && i + k.len() <= s.len() && s.subrange(i, i + k.len()) == k
}

/// The number of positions `>= j` at which `k` occurs in `s`; zero for an
/// empty pattern.
pub open spec fn occ_from(s: Seq<char>, k: Seq<char>, j: int) -> nat
    decreases s.len() - j,
{
    if k.len() == 0 || j < 0 || j + k.len() > s.len() {
        0
    } else {
        (if s.subrange(j, j + k.len()) == k {
            1nat
        } else {
            0nat
        }) + occ_from(s, k, j + 1)
    }
}

/// The number of positions at which `k` occurs in `s`.
pub open spec fn occurrences(s: Seq<char>, k: Seq<char>) -> nat {
    occ_from(s, k, 0)
}

proof fn lemma_occ_from_ge_one(s: Seq<char>, k: Seq<char>, j: int, i: int)
    requires
        k.len() > 0,
        0 <= j <= i,
        occurs_at(s, k, i),
    ensures
        occ_from(s, k, j) >= 1,
    decreases i - j,
{
    assert(j + k.len() <= s.len());
    if j == i {
        assert(s.subrange(j, j + k.len()) == k);
        assert(occ_from(s, k, j) == 1 + occ_from(s, k, j + 1));
    } else {
        lemma_occ_from_ge_one(s, k, j + 1, i);
        assert(occ_from(s, k, j) >= occ_from(s, k, j + 1));
    }
}

proof fn lemma_occ_from_unique(s: Seq<char>, k: Seq<char>, j: int, i: int)
    requires
        k.len() > 0,
        0 <= j,
        occurs_at(s, k, i),
        forall|m: int| occurs_at(s, k, m) ==> m == i,
    ensures
        occ_from(s, k, j) == if j <= i {
            1nat
        } else {
            0nat
        },
    decreases s.len() + 1 - j,
{
    if j + k.len() > s.len() {
        assert(i + k.len() <= s.len());
        assert(j > i);
    } else {
        lemma_occ_from_unique(s, k, j + 1, i);
        if s.subrange(j, j + k.len()) == k {
            assert(occurs_at(s, k, j));
            assert(j == i);
        } else {
            assert(j != i);
        }
    }
}

/// If `k` occurs in `s` at `i` and nowhere else, it occurs exactly once.
pub proof fn lemma_occurrences_unique(s: Seq<char>, k: Seq<char>, i: int)
    requires
        k.len() > 0,
        occurs_at(s, k, i),
        forall|m: int| occurs_at(s, k, m) ==> m == i,
    ensures
        occurrences(s, k) == 1,
{
    lemma_occ_from_unique(s, k, 0, i);
}

/// Every nonempty join key is embedded verbatim in its script, immediately
/// after the fixed prefix, and hence occurs in the script at least once.
pub proof fn lemma_join_key_embedded(key: Seq<char>)
    requires
        key.len() > 0,
    ensures
        occurs_at(script_of(key), key, SCRIPT_PREFIX@.len() as int),
        occurrences(script_of(key), key) >= 1,
{
    let s = script_of(key);
    let p = SCRIPT_PREFIX@.len() as int;
    assert(s.subrange(p, p + key.len()) =~= key);
    lemma_occ_from_ge_one(s, key, 0, p);
}

// ---------------------------------------------------------------------------
// Executable occurrence counting
// ---------------------------------------------------------------------------

fn window_matches(s: &Vec<char>, k: &Vec<char>, i: usize) -> (b: bool)
    requires
        i + k@.len() <= s@.len(),
    ensures
        b == (s@.subrange(i as int, i as int + k@.len() as int) == k@),
{
    let ghost w = s@.subrange(i as int, i as int + k@.len() as int);
    let slen: usize = s.len();
    let mut j: usize = 0;
    while j < k.len()
        invariant
            j <= k@.len(),
            i + k@.len() <= s@.len(),
            s@.len() <= usize::MAX,
            w == s@.subrange(i as int, i as int + k@.len() as int),
            forall|m: int| 0 <= m < j ==> w[m] == k@[m],
        decreases k@.len() - j,
    {
        if s[i + j] != k[j] {
            proof {
                assert(w[j as int] != k@[j as int]);
            }
            return false;
        }
        j += 1;
    }
    proof {
        assert(w =~= k@);
    }
    true
}

/// Counts the positions at which `k` occurs in `s`; zero for an empty `k`.
pub fn count_occurrences(s: &Vec<char>, k: &Vec<char>) -> (n: usize)
    ensures
        n as nat == occurrences(s@, k@),
{
    if k.len() == 0 || k.len() > s.len() {
        return 0;
    }
    let last: usize = s.len() - k.len();
    let mut n: usize = 0;
    let mut i: usize = 0;
    while i <= last
        invariant
            0 < k@.len() <= s@.len(),
            s@.len() <= usize::MAX,
            last == s@.len() - k@.len(),
            i <= last + 1,
            n <= i,
            n + occ_from(s@, k@, i as int) == occurrences(s@, k@),
        decreases last + 1 - i,
    {
        if window_matches(s, k, i) {
            n = n + 1;
        }
        i += 1;
    }
    proof {
        assert(occ_from(s@, k@, i as int) == 0);
    }
    n
}

} // verus!
