//! Filter specs: immutable predicates over a device's name/vendor/product
//! identity. A field left unset is a wildcard.

use vstd::prelude::*;

verus! {

/// Describes parts of a device identity. Each field left as `None` is a
/// wildcard: it constrains nothing. The name is compared byte-exactly.
#[derive(Clone)]
pub struct DeviceSpec {
    pub name: Option<Vec<u8>>,
    pub vendor_id: Option<u16>,
    pub product_id: Option<u16>,
}

impl DeviceSpec {
    /// True iff the spec's name field admits the given name.
    pub open spec fn name_admits(self, other_name: Seq<u8>) -> bool {
        match self.name {
            Some(name) => name@ == other_name,
            None => true,
        }
    }

    /// True iff the spec's vendor field admits the given vendor identifier.
    pub open spec fn vendor_admits(self, other_vendor_id: u16) -> bool {
        match self.vendor_id {
            Some(vendor_id) => vendor_id == other_vendor_id,
            None => true,
        }
    }

    /// True iff the spec's product field admits the given product identifier.
    pub open spec fn product_admits(self, other_product_id: u16) -> bool {
        match self.product_id {
            Some(product_id) => product_id == other_product_id,
            None => true,
        }
    }

    /// True iff every field present in the spec equals the corresponding
    /// input; absent fields constrain nothing.
    pub open spec fn spec_matches(
        self,
        other_name: Seq<u8>,
        other_vendor_id: u16,
        other_product_id: u16,
    ) -> bool {
        &&& self.name_admits(other_name)
        &&& self.vendor_admits(other_vendor_id)
        &&& self.product_admits(other_product_id)
    }

    /// Compares the given values to this DeviceSpec.
    ///
    /// A None value means we skip that comparison.
    pub fn matches(
        &self,
        other_name: &Vec<u8>,
        other_vendor_id: &u16,
        other_product_id: &u16,
    ) -> (r: bool)
        ensures
            r == self.spec_matches(other_name@, *other_vendor_id, *other_product_id),
    {
        if let Some(name) = &self.name {
            if !bytes_eq(name, other_name) {
                return false;
            }
        }

        if let Some(vendor_id) = &self.vendor_id {
            if *vendor_id != *other_vendor_id {
                return false;
            }
        }

        if let Some(product_id) = &self.product_id {
            if *product_id != *other_product_id {
                return false;
            }
        }

        true
    }
}

/// A spec with no fields set is a pure wildcard: it matches every
/// name/vendor/product triple.
pub proof fn lemma_empty_spec_matches_all(
    s: DeviceSpec,
    name: Seq<u8>,
    vendor_id: u16,
    product_id: u16,
)
    requires
        s.name is None,
        s.vendor_id is None,
        s.product_id is None,
    ensures
        s.spec_matches(name, vendor_id, product_id),
{
}

/// A spec with only its name field set matches iff that name equals the
/// supplied one, whatever the two identifiers are.
pub proof fn lemma_name_only_spec(s: DeviceSpec, name: Seq<u8>, vendor_id: u16, product_id: u16)
    requires
        s.name is Some,
        s.vendor_id is None,
        s.product_id is None,
    ensures
        s.spec_matches(name, vendor_id, product_id) <==> s.name->0@ == name,
{
}

/// A spec with only its vendor field set matches iff that vendor identifier
/// equals the supplied one, whatever the name and the product identifier are.
pub proof fn lemma_vendor_only_spec(s: DeviceSpec, name: Seq<u8>, vendor_id: u16, product_id: u16)
    requires
        s.name is None,
        s.vendor_id is Some,
        s.product_id is None,
    ensures
        s.spec_matches(name, vendor_id, product_id) <==> s.vendor_id->0 == vendor_id,
{
}

/// A spec with only its product field set matches iff that product
/// identifier equals the supplied one, whatever the name and the vendor
/// identifier are.
pub proof fn lemma_product_only_spec(s: DeviceSpec, name: Seq<u8>, vendor_id: u16, product_id: u16)
    requires
        s.name is None,
        s.vendor_id is None,
        s.product_id is Some,
    ensures
        s.spec_matches(name, vendor_id, product_id) <==> s.product_id->0 == product_id,
{
}

/// A spec with all three fields set matches iff all three equal the inputs
/// exactly; and the fields act independently: with the other two inputs
/// admitted, the result tracks exactly the remaining field's comparison, so
/// correcting any one mismatched input flips the result on its own.
pub proof fn lemma_full_spec_exact(s: DeviceSpec, name: Seq<u8>, vendor_id: u16, product_id: u16)
    requires
        s.name is Some,
        s.vendor_id is Some,
        s.product_id is Some,
    ensures
        s.spec_matches(name, vendor_id, product_id) <==> (s.name->0@ == name && s.vendor_id->0
            == vendor_id && s.product_id->0 == product_id),
        (s.vendor_id->0 == vendor_id && s.product_id->0 == product_id) ==> (s.spec_matches(
            name,
            vendor_id,
            product_id,
        ) <==> s.name->0@ == name),
        (s.name->0@ == name && s.product_id->0 == product_id) ==> (s.spec_matches(
            name,
            vendor_id,
            product_id,
        ) <==> s.vendor_id->0 == vendor_id),
        (s.name->0@ == name && s.vendor_id->0 == vendor_id) ==> (s.spec_matches(
            name,
            vendor_id,
            product_id,
        ) <==> s.product_id->0 == product_id),
{
}

/// Byte-exact comparison of two byte strings.
fn bytes_eq(a: &Vec<u8>, b: &Vec<u8>) -> (r: bool)
    ensures
        r == (a@ == b@),
{
    if a.len() != b.len() {
        return false;
    }
    let mut i: usize = 0;
    while i < a.len()
        invariant
            i <= a.len(),
            a.len() == b.len(),
            forall|j: int| 0 <= j < i ==> a@[j] == b@[j],
        decreases a.len() - i,
    {
        if a[i] != b[i] {
            return false;
        }
        i += 1;
    }
    proof {
        assert(a@ =~= b@);
    }
    true
}

} // verus!
