//! IP addresses as the kernel hands them over: raw octet strings tagged by
//! family. The kernel reports the addresses bound to a link as a sequence of
//! raw byte entries; a 4-byte entry is an IPv4 address, a 16-byte entry an
//! IPv6 address, and entries of any other length are kernel-level records
//! this crate does not model and are ignored. Deletion matches an address by
//! exact byte sequence, independent of the family tag.

use vstd::prelude::*;

verus! {

/// Mathematical value of an IP address: the raw octets, tagged by family.
pub enum AddrModel {
    V4(Seq<u8>),
    V6(Seq<u8>),
}

impl AddrModel {
    /// A well-formed value carries exactly the octets of its family.
    pub open spec fn wf(self) -> bool {
        match self {
            AddrModel::V4(s) => s.len() == 4,
            AddrModel::V6(s) => s.len() == 16,
        }
    }

    /// The raw byte sequence, without the family tag.
    pub open spec fn octets(self) -> Seq<u8> {
        match self {
            AddrModel::V4(s) => s,
            AddrModel::V6(s) => s,
        }
    }

    pub open spec fn is_v4(self) -> bool {
        self is V4
    }
}

/// An IP address value held as its raw octets, tagged by family.
#[derive(Debug, PartialEq)]
pub enum IpAddress {
    V4(Vec<u8>),
    V6(Vec<u8>),
}

impl View for IpAddress {
    type V = AddrModel;

    open spec fn view(&self) -> AddrModel {
        match self {
            IpAddress::V4(v) => AddrModel::V4(v@),
            IpAddress::V6(v) => AddrModel::V6(v@),
        }
    }
}

impl DeepView for IpAddress {
    type V = AddrModel;

    open spec fn deep_view(&self) -> AddrModel {
        self@
    }
}

impl IpAddress {
    pub open spec fn wf(self) -> bool {
        self@.wf()
    }

    /// True when `self` and `other` are of the same address family.
    pub fn same_family(&self, other: &IpAddress) -> (r: bool)
        ensures
            r == (self@.is_v4() == other@.is_v4()),
    {
        match (self, other) {
            (IpAddress::V4(_), IpAddress::V4(_)) => true,
            (IpAddress::V6(_), IpAddress::V6(_)) => true,
            _ => false,
        }
    }

    /// The raw octets, as a fresh vector.
    pub fn octets(&self) -> (r: Vec<u8>)
        ensures
            r@ == self@.octets(),
    {
        match self {
            IpAddress::V4(v) => copy_bytes(v),
            IpAddress::V6(v) => copy_bytes(v),
        }
    }
}

/// Copies a byte vector.
pub fn copy_bytes(src: &Vec<u8>) -> (r: Vec<u8>)
    ensures
        r@ == src@,
{
    let mut r: Vec<u8> = Vec::new();
    let mut i: usize = 0;
    while i < src.len()
        invariant
            i <= src.len(),
            r@ == src@.subrange(0, i as int),
        decreases src.len() - i,
    {
        r.push(src[i]);
        i = i + 1;
        proof {
            assert(r@ =~= src@.subrange(0, i as int));
        }
    }
    proof {
        assert(r@ =~= src@);
    }
    r
}

/// True when the two byte vectors hold the same bytes.
pub fn bytes_eq(a: &Vec<u8>, b: &Vec<u8>) -> (r: bool)
    ensures
        r == (a@ == b@),
{
    if a.len() != b.len() {
        proof {
            assert(a@ != b@);
        }
        return false;
    }
    let mut i: usize = 0;
    while i < a.len()
        invariant
            i <= a.len(),
            a@.len() == b@.len(),
            forall|j: int| 0 <= j < i ==> a@[j] == b@[j],
        decreases a.len() - i,
    {
        if a[i] != b[i] {
            return false;
        }
        i = i + 1;
    }
    proof {
        assert(a@ =~= b@);
    }
    true
}

/// What a raw kernel address entry stands for: a 4-byte entry is an IPv4
/// address, a 16-byte entry an IPv6 address, anything else is not modeled.
pub open spec fn parse_raw_spec(raw: Seq<u8>) -> Option<AddrModel> {
    if raw.len() == 4 {
        Some(AddrModel::V4(raw))
    } else if raw.len() == 16 {
        Some(AddrModel::V6(raw))
    } else {
        None
    }
}

/// View of an optional parsed address.
pub open spec fn opt_addr_view(o: Option<IpAddress>) -> Option<AddrModel> {
    match o {
        Some(a) => Some(a@),
        None => None,
    }
}

/// Reads one raw kernel address entry as a typed address, if its length
/// names a family this crate models.
pub fn parse_raw_address(raw: Vec<u8>) -> (r: Option<IpAddress>)
    ensures
        opt_addr_view(r) == parse_raw_spec(raw@),
        r matches Some(a) ==> a.wf(),
{
    if raw.len() == 4 {
        Some(IpAddress::V4(raw))
    } else if raw.len() == 16 {
        Some(IpAddress::V6(raw))
    } else {
        None
    }
}

/// The typed addresses among a sequence of raw kernel entries, in kernel
/// order, entries of unmodeled length left out.
pub open spec fn flatten_spec(raws: Seq<Seq<u8>>) -> Seq<AddrModel>
    decreases raws.len(),
{
    if raws.len() == 0 {
        Seq::empty()
    } else {
        flatten_spec(raws.drop_last()) + match parse_raw_spec(raws.last()) {
            Some(a) => seq![a],
            None => Seq::empty(),
        }
    }
}

/// The deep view of a vector of byte vectors is its element views.
pub proof fn lemma_bytes_deep_view(v: Vec<Vec<u8>>)
    ensures
        v.deep_view().len() == v@.len(),
        forall|i: int| 0 <= i < v@.len() ==> v.deep_view()[i] == v@[i]@,
{
    assert forall|i: int| 0 <= i < v@.len() implies v.deep_view()[i] == v@[i]@ by {
        assert(v@[i].deep_view() =~= v@[i]@);
    }
}

/// The deep view of a vector of addresses is its element views.
pub proof fn lemma_addrs_deep_view(v: Vec<IpAddress>)
    ensures
        v.deep_view().len() == v@.len(),
        forall|i: int| 0 <= i < v@.len() ==> v.deep_view()[i] == v@[i]@,
{
}

/// Flattens the kernel's raw address dump into typed addresses.
pub fn flatten_addresses(raws: Vec<Vec<u8>>) -> (r: Vec<IpAddress>)
    ensures
        r.deep_view() == flatten_spec(raws.deep_view()),
        forall|i: int| 0 <= i < r.deep_view().len() ==> (#[trigger] r.deep_view()[i]).wf(),
{
    proof {
        lemma_bytes_deep_view(raws);
    }
    let ghost all = raws.deep_view();
    let mut r: Vec<IpAddress> = Vec::new();
    let mut i: usize = 0;
    while i < raws.len()
        invariant
            i <= raws@.len(),
            all == raws.deep_view(),
            all.len() == raws@.len(),
            forall|k: int| 0 <= k < raws@.len() ==> all[k] == raws@[k]@,
            r.deep_view() == flatten_spec(all.subrange(0, i as int)),
            forall|k: int| 0 <= k < r.deep_view().len() ==> (#[trigger] r.deep_view()[k]).wf(),
        decreases raws.len() - i,
    {
        let raw = copy_bytes(&raws[i]);
        let ghost r_before = r.deep_view();
        match parse_raw_address(raw) {
            Some(a) => {
                r.push(a);
                proof {
                    lemma_addrs_deep_view(r);
                    assert(r.deep_view() =~= r_before.push(a@));
                }
            }
            None => {}
        }
        proof {
            let pref = all.subrange(0, i + 1);
            assert(pref.drop_last() =~= all.subrange(0, i as int));
            assert(pref.last() == all[i as int]);
            assert(r.deep_view() =~= flatten_spec(pref));
        }
        i = i + 1;
    }
    proof {
        assert(all.subrange(0, all.len() as int) =~= all);
    }
    r
}

/// Position of the first raw entry whose bytes equal `target` exactly, if
/// any. Deletion acts on this entry: equality is byte-for-byte, independent
/// of the family tag.
pub open spec fn first_match(dump: Seq<Seq<u8>>, target: Seq<u8>) -> Option<int>
    decreases dump.len(),
{
    if dump.len() == 0 {
        None
    } else if dump.first() == target {
        Some(0)
    } else {
        match first_match(dump.drop_first(), target) {
            Some(i) => Some(i + 1),
            None => None,
        }
    }
}

/// `first_match` names the least matching position, and `None` means no
/// entry matches.
pub proof fn lemma_first_match_is_least(dump: Seq<Seq<u8>>, target: Seq<u8>)
    ensures
        match first_match(dump, target) {
            Some(i) => 0 <= i < dump.len() && dump[i] == target && (forall|j: int|
                0 <= j < i ==> dump[j] != target),
            None => forall|j: int| 0 <= j < dump.len() ==> dump[j] != target,
        },
    decreases dump.len(),
{
    if dump.len() > 0 && dump.first() != target {
        lemma_first_match_is_least(dump.drop_first(), target);
        assert(forall|j: int| 0 < j < dump.len() ==> dump[j] == dump.drop_first()[j - 1]);
    }
}

/// A match at `i` with no match before it pins `first_match` to `i`.
pub proof fn lemma_first_match_found(dump: Seq<Seq<u8>>, target: Seq<u8>, i: int)
    requires
        0 <= i < dump.len(),
        dump[i] == target,
        forall|j: int| 0 <= j < i ==> dump[j] != target,
    ensures
        first_match(dump, target) == Some(i),
    decreases i,
{
    if i > 0 {
        lemma_first_match_found(dump.drop_first(), target, i - 1);
    }
}

/// No match anywhere pins `first_match` to `None`.
pub proof fn lemma_first_match_none(dump: Seq<Seq<u8>>, target: Seq<u8>)
    requires
        forall|j: int| 0 <= j < dump.len() ==> dump[j] != target,
    ensures
        first_match(dump, target) is None,
    decreases dump.len(),
{
    if dump.len() > 0 {
        assert(forall|j: int| 0 <= j < dump.len() - 1 ==> dump.drop_first()[j] == dump[j + 1]);
        lemma_first_match_none(dump.drop_first(), target);
    }
}

/// Finds the first raw entry that equals the target address byte-for-byte.
pub fn find_address(dump: &Vec<Vec<u8>>, target: &IpAddress) -> (r: Option<usize>)
    ensures
        match r {
            Some(i) => first_match(dump.deep_view(), target@.octets()) == Some(i as int),
            None => first_match(dump.deep_view(), target@.octets()) is None,
        },
{
    proof {
        lemma_bytes_deep_view(*dump);
    }
    let octets = target.octets();
    let ghost d = dump.deep_view();
    let mut i: usize = 0;
    while i < dump.len()
        invariant
            i <= dump@.len(),
            d == dump.deep_view(),
            d.len() == dump@.len(),
            forall|k: int| 0 <= k < dump@.len() ==> d[k] == dump@[k]@,
            octets@ == target@.octets(),
            forall|j: int| 0 <= j < i ==> d[j] != octets@,
        decreases dump.len() - i,
    {
        if bytes_eq(&dump[i], &octets) {
            proof {
                lemma_first_match_found(d, octets@, i as int);
            }
            return Some(i);
        }
        i = i + 1;
    }
    proof {
        lemma_first_match_none(d, octets@);
    }
    None
}

} // verus!
