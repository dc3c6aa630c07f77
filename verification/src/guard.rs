//! The nested-invocation guard.
//!
//! Attaching a client from inside a session of the same service would nest
//! sessions recursively, so the launcher refuses to start when the process
//! environment carries the service's marker. The application takes a
//! snapshot of the environment variable names and asks [`is_nested_invocation`];
//! the marker is any occurrence of the service's name in one of them.
use vstd::prelude::*;

verus! {

/// The service's environment marker.
pub open spec fn nested_marker() -> Seq<char> {
    seq!['Z', 'E', 'L', 'L', 'I', 'J']
}

/// Whether the marker occurs anywhere in one environment variable name.
pub open spec fn has_marker(s: Seq<char>) -> bool {
    exists|j: int| 0 <= j && j + 6 <= s.len() && #[trigger] s.subrange(j, j + 6) == nested_marker()
}

/// Whether some name of an environment snapshot carries the marker.
pub open spec fn nested_env(keys: Seq<Seq<char>>) -> bool {
    exists|i: int| 0 <= i < keys.len() && has_marker(keys[i])
}

/// Decides whether the marker stands at position `j` of the name.
fn marker_at(s: &str, j: usize) -> (r: bool)
    requires
        j + 6 <= s@.len(),
        s@.len() <= usize::MAX,
    ensures
        r == (s@.subrange(j as int, j as int + 6) == nested_marker()),
{
    let r = s.get_char(j) == 'Z' && s.get_char(j + 1) == 'E' && s.get_char(j + 2) == 'L'
        && s.get_char(j + 3) == 'L' && s.get_char(j + 4) == 'I' && s.get_char(j + 5) == 'J';
    proof {
        let sub = s@.subrange(j as int, j as int + 6);
        if r {
            assert(sub =~= nested_marker());
        } else {
            if sub == nested_marker() {
                assert(s@[j as int] == sub[0] && sub[0] == 'Z');
                assert(s@[j as int + 1] == sub[1] && sub[1] == 'E');
                assert(s@[j as int + 2] == sub[2] && sub[2] == 'L');
                assert(s@[j as int + 3] == sub[3] && sub[3] == 'L');
                assert(s@[j as int + 4] == sub[4] && sub[4] == 'I');
                assert(s@[j as int + 5] == sub[5] && sub[5] == 'J');
            }
        }
    }
    r
}

/// Decides whether one environment variable name carries the marker.
pub fn name_has_marker(s: &str) -> (r: bool)
    ensures
        r == has_marker(s@),
{
    let n = s.unicode_len();
    if n < 6 {
        return false;
    }
    let mut j: usize = 0;
    while j <= n - 6
        invariant
            n == s@.len(),
            6 <= n <= usize::MAX,
            j <= n - 5,
            forall|k: int| 0 <= k < j ==> #[trigger] s@.subrange(k, k + 6) != nested_marker(),
        decreases n - j,
    {
        if marker_at(s, j) {
            return true;
        }
        j = j + 1;
    }
    false
}

/// Decides whether an environment snapshot indicates a nested invocation:
/// some variable name in it contains the service's marker. The launcher
/// refuses to proceed on such a snapshot.
pub fn is_nested_invocation(env_keys: &Vec<String>) -> (r: bool)
    ensures
        r == nested_env(env_keys.deep_view()),
{
    let mut i: usize = 0;
    while i < env_keys.len()
        invariant
            i <= env_keys.len(),
            forall|k: int| 0 <= k < i ==> !has_marker(env_keys.deep_view()[k]),
        decreases env_keys.len() - i,
    {
        if name_has_marker(env_keys[i].as_str()) {
            proof {
                assert(has_marker(env_keys.deep_view()[i as int]));
            }
            return true;
        }
        i = i + 1;
    }
    false
}

} // verus!
