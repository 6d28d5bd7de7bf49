use vstd::prelude::*;

verus! {

/// Stable identifying metadata of one HID endpoint, read without opening
/// it. Identity is the triple (vendor_id, product_id, path); the strings
/// are display-only and may be absent.
#[derive(Debug, PartialEq, Eq)]
pub struct DeviceDescriptor {
    pub vendor_id: u16,
    pub product_id: u16,
    pub manufacturer: Option<String>,
    pub product: Option<String>,
    /// Opaque platform path of the endpoint, as the OS reported it.
    pub path: String,
}

/// Whether one descriptor passes the vendor/product filter. A `None`
/// filter component matches every device.
pub open spec fn descriptor_matches(
    d: DeviceDescriptor,
    vendor_filter: Option<u16>,
    product_filter: Option<u16>,
) -> bool {
    &&& (match vendor_filter {
        Some(v) => d.vendor_id == v,
        None => true,
    })
    &&& (match product_filter {
        Some(p) => d.product_id == p,
        None => true,
    })
}

/// The subsequence of `s` that passes the filter, in enumeration order.
pub open spec fn matching_seq(
    s: Seq<DeviceDescriptor>,
    vendor_filter: Option<u16>,
    product_filter: Option<u16>,
) -> Seq<DeviceDescriptor>
    decreases s.len(),
{
    if s.len() == 0 {
        Seq::empty()
    } else {
        let rest = matching_seq(s.drop_last(), vendor_filter, product_filter);
        if descriptor_matches(s.last(), vendor_filter, product_filter) {
            rest.push(s.last())
        } else {
            rest
        }
    }
}

impl DeviceDescriptor {
    pub fn passes_filter(
        &self,
        vendor_filter: Option<u16>,
        product_filter: Option<u16>,
    ) -> (b: bool)
        ensures
            b == descriptor_matches(*self, vendor_filter, product_filter),
    {
        let vendor_ok = match vendor_filter {
            Some(v) => self.vendor_id == v,
            None => true,
        };
        let product_ok = match product_filter {
            Some(p) => self.product_id == p,
            None => true,
        };
        vendor_ok && product_ok
    }
}

/// The enumerator core: keep exactly the candidates that pass the
/// vendor/product filter, in their enumeration order. A pure query — it
/// opens nothing and is safe to re-run at any time — and total: a filter
/// that matches nothing yields an empty list, never an error.
pub fn list_devices(
    candidates: Vec<DeviceDescriptor>,
    vendor_filter: Option<u16>,
    product_filter: Option<u16>,
) -> (r: Vec<DeviceDescriptor>)
    ensures
        r@ == matching_seq(candidates@, vendor_filter, product_filter),
{
    let mut rest = candidates;
    let mut out: Vec<DeviceDescriptor> = Vec::new();
    let ghost all = rest@;
    let ghost mut taken: int = 0;
    while rest.len() > 0
        invariant
            0 <= taken,
            taken + rest@.len() == all.len(),
            all.subrange(taken, all.len() as int) == rest@,
            out@ == matching_seq(all.subrange(0, taken), vendor_filter, product_filter),
        decreases rest@.len(),
    {
        let d = rest.remove(0);
        proof {
            assert(all.subrange(0, taken + 1).drop_last() == all.subrange(0, taken));
            assert(all.subrange(0, taken + 1).last() == d);
            assert(all.subrange(taken + 1, all.len() as int) == rest@);
        }
        if d.passes_filter(vendor_filter, product_filter) {
            out.push(d);
        }
        proof {
            taken = taken + 1;
        }
    }
    proof {
        assert(all.subrange(0, all.len() as int) == all);
    }
    out
}

/// No match, no error: when nothing in `s` passes the filter, the
/// enumerator's result is empty (and, the result type being a plain
/// sequence, there is no error to return at all).
pub proof fn lemma_no_match_empty(
    s: Seq<DeviceDescriptor>,
    vendor_filter: Option<u16>,
    product_filter: Option<u16>,
)
    requires
        forall|i: int|
            0 <= i < s.len() ==> !descriptor_matches(s[i], vendor_filter, product_filter),
    ensures
        matching_seq(s, vendor_filter, product_filter) == Seq::<DeviceDescriptor>::empty(),
    decreases s.len(),
{
    if s.len() > 0 {
        lemma_no_match_empty(s.drop_last(), vendor_filter, product_filter);
    }
}

/// Every device the enumerator returns did pass the filter.
pub proof fn lemma_matching_all_match(
    s: Seq<DeviceDescriptor>,
    vendor_filter: Option<u16>,
    product_filter: Option<u16>,
)
    ensures
        forall|i: int|
            0 <= i < matching_seq(s, vendor_filter, product_filter).len()
                ==> descriptor_matches(
                #[trigger] matching_seq(s, vendor_filter, product_filter)[i],
                vendor_filter,
                product_filter,
            ),
    decreases s.len(),
{
    if s.len() > 0 {
        lemma_matching_all_match(s.drop_last(), vendor_filter, product_filter);
        let rest = matching_seq(s.drop_last(), vendor_filter, product_filter);
        let whole = matching_seq(s, vendor_filter, product_filter);
        assert forall|i: int|
            0 <= i < whole.len() implies descriptor_matches(
            whole[i],
            vendor_filter,
            product_filter,
        ) by {
            if descriptor_matches(s.last(), vendor_filter, product_filter) {
                if i < rest.len() {
                    assert(whole[i] == rest[i]);
                } else {
                    assert(whole[i] == s.last());
                }
            } else {
                assert(whole[i] == rest[i]);
            }
        }
    }
}

} // verus!
