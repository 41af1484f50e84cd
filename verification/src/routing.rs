//! The routing table of the service: one explicit, inspectable mapping
//! from HTTP method and path to the operation it names, under the fixed
//! `/api` prefix, together with the decimal parsing of path ids.

use vstd::prelude::*;

verus! {

/// The HTTP methods the service accepts.
#[derive(Clone, Copy, PartialEq, Eq, Structural, Debug)]
pub enum Method {
    Get,
    Post,
    Put,
    Delete,
}

/// The operations the service routes to, one per handler.
#[derive(Clone, Copy, PartialEq, Eq, Structural, Debug)]
pub enum Route {
    ListGames,
    GetGame(u64),
    CreateGame,
    UpdateGame(u64),
    DeleteGame(u64),
    Health,
}

/// Whether the character is a decimal digit.
pub open spec fn is_digit(c: char) -> bool {
    48 <= c as u32 <= 57
}

/// The numeric value of a decimal digit.
pub open spec fn digit_val(c: char) -> int {
    c as u32 - 48
}

/// Whether every character of the sequence is a decimal digit.
pub open spec fn all_digits(s: Seq<char>) -> bool {
    forall|i: int| 0 <= i < s.len() ==> is_digit(#[trigger] s[i])
}

/// The number a sequence of decimal digits denotes, most significant
/// digit first.
pub open spec fn digits_val(s: Seq<char>) -> int
    decreases s.len(),
{
    if s.len() == 0 {
        0
    } else {
        digits_val(s.drop_last()) * 10 + digit_val(s.last())
    }
}

/// What parsing a path id yields: the denoted number, for a non-empty,
/// all-digit sequence whose value fits in a `u64`; nothing otherwise.
pub open spec fn spec_parse_u64(s: Seq<char>) -> Option<u64> {
    if s.len() > 0 && all_digits(s) && digits_val(s) <= u64::MAX {
        Some(digits_val(s) as u64)
    } else {
        None
    }
}

/// A sequence of digits denotes a non-negative number.
pub proof fn lemma_digits_val_nonneg(s: Seq<char>)
    requires
        all_digits(s),
    ensures
        digits_val(s) >= 0,
    decreases s.len(),
{
    if s.len() > 0 {
        lemma_digits_val_nonneg(s.drop_last());
    }
}

/// Reading further digits never shrinks the denoted number.
pub proof fn lemma_digits_val_monotone(s: Seq<char>, k: int)
    requires
        all_digits(s),
        0 <= k <= s.len(),
    ensures
        digits_val(s.take(k)) <= digits_val(s),
    decreases s.len() - k,
{
    if k < s.len() {
        lemma_digits_val_monotone(s, k + 1);
        assert(s.take(k + 1).drop_last() =~= s.take(k));
        assert(all_digits(s.take(k))) by {
            assert(forall|i: int| 0 <= i < k ==> s.take(k)[i] == s[i]);
        }
        lemma_digits_val_nonneg(s.take(k));
        assert(digits_val(s.take(k + 1)) == digits_val(s.take(k)) * 10 + digit_val(s[k]));
    } else {
        assert(s.take(k) =~= s);
    }
}

/// Parses a path segment as a decimal id: non-empty, all digits, and
/// within `u64` range, else nothing.
pub fn parse_u64(s: &str) -> (r: Option<u64>)
    ensures
        r == spec_parse_u64(s@),
{
    let n = s.unicode_len();
    if n == 0 {
        return None;
    }
    let mut acc: u64 = 0;
    let mut i: usize = 0;
    while i < n
        invariant
            n == s@.len(),
            0 < n,
            i <= n,
            all_digits(s@.take(i as int)),
            acc == digits_val(s@.take(i as int)),
        decreases n - i,
    {
        let c = s.get_char(i);
        let cv = c as u32;
        if cv < 48 || cv > 57 {
            proof {
                assert(!is_digit(s@[i as int]));
                assert(!all_digits(s@));
            }
            return None;
        }
        let d: u64 = (cv - 48) as u64;
        proof {
            assert(s@.take(i + 1).drop_last() =~= s@.take(i as int));
            assert(digits_val(s@.take(i + 1)) == acc * 10 + d);
            assert(all_digits(s@.take(i + 1)));
        }
        if acc > u64::MAX / 10 || (acc == u64::MAX / 10 && d > u64::MAX % 10) {
            proof {
                if all_digits(s@) {
                    lemma_digits_val_monotone(s@, i + 1);
                    assert(digits_val(s@) > u64::MAX);
                }
            }
            return None;
        }
        acc = acc * 10 + d;
        i = i + 1;
    }
    proof {
        assert(s@.take(n as int) =~= s@);
    }
    Some(acc)
}

/// Whether two strings hold the same characters.
pub fn str_eq(a: &str, b: &str) -> (r: bool)
    ensures
        r == (a@ == b@),
{
    let na = a.unicode_len();
    let nb = b.unicode_len();
    if na != nb {
        proof {
            if a@ == b@ {
                assert(a@.len() == b@.len());
            }
        }
        return false;
    }
    let mut i: usize = 0;
    while i < na
        invariant
            na == a@.len(),
            na == b@.len(),
            i <= na,
            forall|j: int| 0 <= j < i ==> a@[j] == #[trigger] b@[j],
        decreases na - i,
    {
        if a.get_char(i) != b.get_char(i) {
            return false;
        }
        i = i + 1;
    }
    proof {
        assert(a@ =~= b@);
    }
    true
}

/// Where a method and path lead: the exact game and health paths, and
/// the game paths carrying a decimal id, all under the `/api` prefix.
pub open spec fn spec_resolve(m: Method, p: Seq<char>) -> Option<Route> {
    if p == "/api/healthchecker"@ {
        if m is Get {
            Some(Route::Health)
        } else {
            None
        }
    } else if p == "/api/games"@ {
        match m {
            Method::Get => Some(Route::ListGames),
            Method::Post => Some(Route::CreateGame),
            _ => None,
        }
    } else if p.len() >= 11 && p.take(11) == "/api/games/"@ {
        match spec_parse_u64(p.skip(11)) {
            Some(id) => match m {
                Method::Get => Some(Route::GetGame(id)),
                Method::Put => Some(Route::UpdateGame(id)),
                Method::Delete => Some(Route::DeleteGame(id)),
                Method::Post => None,
            },
            None => None,
        }
    } else {
        None
    }
}

/// The static routing table: the fixed paths every request is matched
/// against. Built once at startup by `config`.
pub struct RouteTable {
    pub games_path: &'static str,
    pub games_id_prefix: &'static str,
    pub health_path: &'static str,
}

impl RouteTable {
    /// The table holds exactly the service's three path patterns.
    pub open spec fn wf(self) -> bool {
        &&& self.games_path@ == "/api/games"@
        &&& self.games_id_prefix@ == "/api/games/"@
        &&& self.health_path@ == "/api/healthchecker"@
    }

    /// Matches a method and path against the table.
    pub fn resolve(&self, m: &Method, path: &str) -> (r: Option<Route>)
        requires
            self.wf(),
        ensures
            r == spec_resolve(*m, path@),
    {
        if str_eq(path, self.health_path) {
            match m {
                Method::Get => Some(Route::Health),
                _ => None,
            }
        } else if str_eq(path, self.games_path) {
            match m {
                Method::Get => Some(Route::ListGames),
                Method::Post => Some(Route::CreateGame),
                _ => None,
            }
        } else {
            let n = path.unicode_len();
            if n >= 11 {
                let head = path.substring_char(0, 11);
                let tail = path.substring_char(11, n);
                if str_eq(head, self.games_id_prefix) {
                    proof {
                        assert(path@.take(11) == head@);
                        assert(path@.skip(11) == tail@);
                    }
                    match parse_u64(tail) {
                        Some(id) => match m {
                            Method::Get => Some(Route::GetGame(id)),
                            Method::Put => Some(Route::UpdateGame(id)),
                            Method::Delete => Some(Route::DeleteGame(id)),
                            Method::Post => None,
                        },
                        None => None,
                    }
                } else {
                    None
                }
            } else {
                None
            }
        }
    }
}

/// Builds the routing table: the explicit counterpart of mounting the
/// game routes and the health route under the `/api` scope.
pub fn config() -> (t: RouteTable)
    ensures
        t.wf(),
{
    RouteTable {
        games_path: "/api/games",
        games_id_prefix: "/api/games/",
        health_path: "/api/healthchecker",
    }
}

} // verus!
