//! The device's resource representation as reported by the gateway:
//! label, numeric id, product metadata, and the light-control entry.

use crate::light::LightInfo;
use vstd::prelude::*;

verus! {

/// Product metadata of a device.
pub struct ProductInfo {
    pub manufacturer: Option<String>,
    pub product_name: Option<String>,
}

impl ProductInfo {
    /// Metadata with no fields present.
    pub fn new() -> (r: Self)
        ensures
            r.manufacturer is None,
            r.product_name is None,
    {
        ProductInfo { manufacturer: None, product_name: None }
    }
}

impl Default for ProductInfo {
    fn default() -> (r: Self)
        ensures
            r.manufacturer is None,
            r.product_name is None,
    {
        ProductInfo::new()
    }
}

/// One device as reported by the gateway. Absent optional fields are
/// omitted from the wire encoding entirely.
pub struct DeviceInfo {
    pub label: Option<String>,
    pub id: Option<usize>,
    pub product_info: Option<ProductInfo>,
    pub light_info: Option<LightInfo>,
}

impl DeviceInfo {
    /// A device description with no fields present.
    pub fn new() -> (r: Self)
        ensures
            r.label is None,
            r.id is None,
            r.product_info is None,
            r.light_info is None,
    {
        DeviceInfo { label: None, id: None, product_info: None, light_info: None }
    }

    /// Attaches a light-control entry, replacing any present one and
    /// leaving every other field as it was.
    pub fn with_light_info(self, light_info: LightInfo) -> (r: Self)
        ensures
            r.label == self.label,
            r.id == self.id,
            r.product_info == self.product_info,
            r.light_info == Some(light_info),
    {
        let mut s = self;
        s.light_info = Some(light_info);
        s
    }
}

impl Default for DeviceInfo {
    fn default() -> (r: Self)
        ensures
            r.label is None,
            r.id is None,
            r.product_info is None,
            r.light_info is None,
    {
        DeviceInfo::new()
    }
}

} // verus!
