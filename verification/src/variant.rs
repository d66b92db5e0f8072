//! Identification of the network a chain specification belongs to, from
//! the chain specification's identifier.

use vstd::prelude::*;
use vstd::string::StrSliceExecFns;

verus! {

/// The identifier prefix of the Acala network.
pub open spec fn acala_prefix() -> Seq<char> {
    seq!['a', 'c', 'a', 'l', 'a']
}

/// The identifier prefix of Acala's Wendala test network.
pub open spec fn wendala_prefix() -> Seq<char> {
    seq!['w', 'e', 'n', 'd', 'a', 'l', 'a']
}

/// The identifier prefix of the Karura network.
pub open spec fn karura_prefix() -> Seq<char> {
    seq!['k', 'a', 'r', 'u', 'r', 'a']
}

/// The identifier prefix of the Mandala network.
pub open spec fn mandala_prefix() -> Seq<char> {
    seq!['m', 'a', 'n', 'd', 'a', 'l', 'a']
}

/// The identifier suffix of development chains.
pub open spec fn dev_suffix() -> Seq<char> {
    seq!['d', 'e', 'v']
}

/// The chain with identifier `id` belongs to the Acala network.
pub open spec fn is_acala_id(id: Seq<char>) -> bool {
    acala_prefix().is_prefix_of(id) || wendala_prefix().is_prefix_of(id)
}

/// The chain with identifier `id` belongs to the Karura network.
pub open spec fn is_karura_id(id: Seq<char>) -> bool {
    karura_prefix().is_prefix_of(id)
}

/// The chain with identifier `id` belongs to the Mandala network.
pub open spec fn is_mandala_id(id: Seq<char>) -> bool {
    mandala_prefix().is_prefix_of(id)
}

/// The chain with identifier `id` is a development chain.
pub open spec fn is_dev_id(id: Seq<char>) -> bool {
    dev_suffix().is_suffix_of(id)
}

/// No chain identifier belongs to two of the Acala, Karura and Mandala
/// networks: their identifier prefixes already differ in the first letter.
pub proof fn networks_are_exclusive(id: Seq<char>)
    ensures
        !(is_acala_id(id) && is_karura_id(id)),
        !(is_acala_id(id) && is_mandala_id(id)),
        !(is_karura_id(id) && is_mandala_id(id)),
{
    if acala_prefix().is_prefix_of(id) {
        assert(id[0] == acala_prefix()[0]);
    }
    if wendala_prefix().is_prefix_of(id) {
        assert(id[0] == wendala_prefix()[0]);
    }
    if karura_prefix().is_prefix_of(id) {
        assert(id[0] == karura_prefix()[0]);
    }
    if mandala_prefix().is_prefix_of(id) {
        assert(id[0] == mandala_prefix()[0]);
    }
}

/// Whether `s` begins with `prefix`.
pub fn has_prefix(s: &str, prefix: &str) -> (r: bool)
    ensures
        r == prefix@.is_prefix_of(s@),
{
    let n = s.unicode_len();
    let m = prefix.unicode_len();
    if m > n {
        return false;
    }
    let mut i: usize = 0;
    while i < m
        invariant
            n == s@.len(),
            m == prefix@.len(),
            m <= n,
            i <= m,
            forall|j: int| 0 <= j < i ==> prefix@[j] == s@[j],
        decreases m - i,
    {
        if s.get_char(i) != prefix.get_char(i) {
            assert(s@.subrange(0, m as int)[i as int] == s@[i as int]);
            return false;
        }
        i = i + 1;
    }
    assert(prefix@ =~= s@.subrange(0, m as int));
    true
}

/// Whether `s` ends with `suffix`.
pub fn has_suffix(s: &str, suffix: &str) -> (r: bool)
    ensures
        r == suffix@.is_suffix_of(s@),
{
    let n = s.unicode_len();
    let m = suffix.unicode_len();
    if m > n {
        return false;
    }
    let start = n - m;
    let mut i: usize = 0;
    while i < m
        invariant
            n == s@.len(),
            m == suffix@.len(),
            m <= n,
            start == n - m,
            i <= m,
            forall|j: int| 0 <= j < i ==> suffix@[j] == s@[start + j],
        decreases m - i,
    {
        if s.get_char(start + i) != suffix.get_char(i) {
            assert(s@.subrange(start as int, n as int)[i as int] == s@[start + i]);
            return false;
        }
        i = i + 1;
    }
    assert(suffix@ =~= s@.subrange(start as int, n as int));
    true
}

/// Tells which network a chain specification is for, from its identifier.
pub trait IdentifyVariant {
    /// The identifier of the chain specification.
    spec fn chain_id(&self) -> Seq<char>;

    /// Returns `true` if this is a configuration for the `Acala` network.
    fn is_acala(&self) -> (r: bool)
        ensures
            r == is_acala_id(self.chain_id()),
    ;

    /// Returns `true` if this is a configuration for the `Karura` network.
    fn is_karura(&self) -> (r: bool)
        ensures
            r == is_karura_id(self.chain_id()),
    ;

    /// Returns `true` if this is a configuration for the `Mandala` network.
    fn is_mandala(&self) -> (r: bool)
        ensures
            r == is_mandala_id(self.chain_id()),
    ;

    /// Returns `true` if this is a configuration for the dev network.
    fn is_dev(&self) -> (r: bool)
        ensures
            r == is_dev_id(self.chain_id()),
    ;
}

impl IdentifyVariant for str {
    open spec fn chain_id(&self) -> Seq<char> {
        self@
    }

    fn is_acala(&self) -> (r: bool) {
        proof {
            reveal_strlit("acala");
            reveal_strlit("wendala");
        }
        has_prefix(self, "acala") || has_prefix(self, "wendala")
    }

    fn is_karura(&self) -> (r: bool) {
        proof {
            reveal_strlit("karura");
        }
        has_prefix(self, "karura")
    }

    fn is_mandala(&self) -> (r: bool) {
        proof {
            reveal_strlit("mandala");
        }
        has_prefix(self, "mandala")
    }

    fn is_dev(&self) -> (r: bool) {
        proof {
            reveal_strlit("dev");
        }
        has_suffix(self, "dev")
    }
}

} // verus!
