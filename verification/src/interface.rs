//! Device selection filters: which enumerated HID interfaces form the read,
//! control and LED channels of a supported keyboard.

use vstd::prelude::*;

verus! {

/// Product id of the Vulcan 100.
pub const VULCAN_100_PRODUCT_ID: u16 = 12_410;

/// Product id of the Vulcan 120.
pub const VULCAN_120_PRODUCT_ID: u16 = 12_440;

/// Usage page of the read device.
pub const USAGE_PAGE_READ_DEVICE: u16 = 10;

/// Interface number of the read device.
pub const READ_INTERFACE_NUMBER: i32 = 1;

/// Interface number of the control device.
pub const CONTROL_INTERFACE_NUMBER: i32 = 1;

/// Interface number of the LED device.
pub const LED_INTERFACE_NUMBER: i32 = 3;

/// The identifying attributes of one enumerated HID interface, as the
/// caller that enumerates devices hands them to this crate: product id,
/// interface number, and usage page (0 where the platform reports none).
#[derive(Debug, Clone, Copy, PartialEq, Eq, Hash, Structural)]
pub struct HidDeviceInfo {
    /// Product id of the device
    pub product_id: u16,
    /// Interface number of the device
    pub interface_number: i32,
    /// Usage page of the device
    pub usage_page: u16,
}

/// Basic HID interface filter: a product id, an interface number, and
/// optionally a usage page.
#[derive(Debug, Clone, Copy, PartialEq, Eq, Hash)]
pub struct HidInterfaceFilter {
    /// Product id to match
    pub product_id: u16,
    /// Interface number to match
    pub interface_number: i32,
    /// Usage page to match, if any
    pub usage_page: Option<u16>,
}

/// Whether `device` matches `filter`: product id and interface number must
/// match, and the usage page must match when the filter specifies one.
pub open spec fn spec_match_filter(filter: HidInterfaceFilter, device: HidDeviceInfo) -> bool {
    &&& (filter.usage_page matches Some(page) ==> page == device.usage_page)
    &&& filter.product_id == device.product_id
    &&& filter.interface_number == device.interface_number
}

impl HidInterfaceFilter {
    /// Create a new filter without a usage page.
    pub fn new(product_id: u16, interface_number: i32) -> (r: Self)
        ensures
            r == (HidInterfaceFilter { product_id, interface_number, usage_page: None }),
    {
        Self { product_id, interface_number, usage_page: None }
    }

    /// Create a new filter with a usage page.
    pub fn new_with_usage_page(product_id: u16, interface_number: i32, usage_page: u16) -> (r: Self)
        ensures
            r == (HidInterfaceFilter {
                product_id,
                interface_number,
                usage_page: Some(usage_page),
            }),
    {
        Self { product_id, interface_number, usage_page: Some(usage_page) }
    }

    /// Get the product id.
    pub fn product_id(&self) -> (r: u16)
        ensures
            r == self.product_id,
    {
        self.product_id
    }

    /// Get a mutable reference to the product id.
    pub fn product_id_mut(&mut self) -> (r: &mut u16)
        ensures
            *r == old(self).product_id,
            *final(self) == (HidInterfaceFilter { product_id: *final(r), ..*old(self) }),
    {
        &mut self.product_id
    }

    /// Get the interface number.
    pub fn interface_number(&self) -> (r: i32)
        ensures
            r == self.interface_number,
    {
        self.interface_number
    }

    /// Get a mutable reference to the interface number.
    pub fn interface_number_mut(&mut self) -> (r: &mut i32)
        ensures
            *r == old(self).interface_number,
            *final(self) == (HidInterfaceFilter { interface_number: *final(r), ..*old(self) }),
    {
        &mut self.interface_number
    }

    /// Get the usage page.
    pub fn usage_page(&self) -> (r: Option<u16>)
        ensures
            r == self.usage_page,
    {
        self.usage_page
    }

    /// Get a mutable reference to the usage page.
    pub fn usage_page_mut(&mut self) -> (r: &mut Option<u16>)
        ensures
            *r == old(self).usage_page,
            *final(self) == (HidInterfaceFilter { usage_page: *final(r), ..*old(self) }),
    {
        &mut self.usage_page
    }

    /// Whether the given device matches this filter.
    pub fn match_filter(&self, device: &HidDeviceInfo) -> (r: bool)
        ensures
            r == spec_match_filter(*self, *device),
    {
        let match_usage = if let Some(val) = self.usage_page {
            val == device.usage_page
        } else {
            true
        };
        match_usage && self.product_id == device.product_id && self.interface_number
            == device.interface_number
    }
}

/// The filters for the three channels that one keyboard model exposes.
#[derive(Debug, Clone, Copy, PartialEq, Eq, Hash)]
pub struct KeyboardIntrefacesFilter {
    /// The read device filter
    pub read_interface: HidInterfaceFilter,
    /// The control device filter
    pub control_interface: HidInterfaceFilter,
    /// The LED device filter
    pub led_interface: HidInterfaceFilter,
}

/// The filter set of the Vulcan 100.
pub open spec fn spec_vulcan_100() -> KeyboardIntrefacesFilter {
    KeyboardIntrefacesFilter {
        read_interface: HidInterfaceFilter {
            product_id: VULCAN_100_PRODUCT_ID,
            interface_number: READ_INTERFACE_NUMBER,
            usage_page: Some(USAGE_PAGE_READ_DEVICE),
        },
        control_interface: HidInterfaceFilter {
            product_id: VULCAN_100_PRODUCT_ID,
            interface_number: CONTROL_INTERFACE_NUMBER,
            usage_page: None,
        },
        led_interface: HidInterfaceFilter {
            product_id: VULCAN_100_PRODUCT_ID,
            interface_number: LED_INTERFACE_NUMBER,
            usage_page: None,
        },
    }
}

/// The filter set of the Vulcan 120.
pub open spec fn spec_vulcan_120() -> KeyboardIntrefacesFilter {
    KeyboardIntrefacesFilter {
        read_interface: HidInterfaceFilter {
            product_id: VULCAN_120_PRODUCT_ID,
            interface_number: READ_INTERFACE_NUMBER,
            usage_page: Some(USAGE_PAGE_READ_DEVICE),
        },
        control_interface: HidInterfaceFilter {
            product_id: VULCAN_120_PRODUCT_ID,
            interface_number: CONTROL_INTERFACE_NUMBER,
            usage_page: None,
        },
        led_interface: HidInterfaceFilter {
            product_id: VULCAN_120_PRODUCT_ID,
            interface_number: LED_INTERFACE_NUMBER,
            usage_page: None,
        },
    }
}

impl KeyboardIntrefacesFilter {
    /// Get the read interface filter.
    pub fn read_interface(&self) -> (r: &HidInterfaceFilter)
        ensures
            *r == self.read_interface,
    {
        &self.read_interface
    }

    /// Get a mutable reference to the read interface filter.
    pub fn read_interface_mut(&mut self) -> (r: &mut HidInterfaceFilter)
        ensures
            *r == old(self).read_interface,
            *final(self) == (KeyboardIntrefacesFilter { read_interface: *final(r), ..*old(self) }),
    {
        &mut self.read_interface
    }

    /// Get the control interface filter.
    pub fn control_interface(&self) -> (r: &HidInterfaceFilter)
        ensures
            *r == self.control_interface,
    {
        &self.control_interface
    }

    /// Get a mutable reference to the control interface filter.
    pub fn control_interface_mut(&mut self) -> (r: &mut HidInterfaceFilter)
        ensures
            *r == old(self).control_interface,
            *final(self) == (KeyboardIntrefacesFilter {
                control_interface: *final(r),
                ..*old(self)
            }),
    {
        &mut self.control_interface
    }

    /// Get the LED interface filter.
    pub fn led_interface(&self) -> (r: &HidInterfaceFilter)
        ensures
            *r == self.led_interface,
    {
        &self.led_interface
    }

    /// Get a mutable reference to the LED interface filter.
    pub fn led_interface_mut(&mut self) -> (r: &mut HidInterfaceFilter)
        ensures
            *r == old(self).led_interface,
            *final(self) == (KeyboardIntrefacesFilter { led_interface: *final(r), ..*old(self) }),
    {
        &mut self.led_interface
    }

    /// The Vulcan 100 filter set.
    pub fn vulcan_100() -> (r: Self)
        ensures
            r == spec_vulcan_100(),
    {
        let product_id = VULCAN_100_PRODUCT_ID;
        Self {
            read_interface: HidInterfaceFilter::new_with_usage_page(
                product_id,
                READ_INTERFACE_NUMBER,
                USAGE_PAGE_READ_DEVICE,
            ),
            control_interface: HidInterfaceFilter::new(product_id, CONTROL_INTERFACE_NUMBER),
            led_interface: HidInterfaceFilter::new(product_id, LED_INTERFACE_NUMBER),
        }
    }

    /// The Vulcan 120 filter set.
    pub fn vulcan_120() -> (r: Self)
        ensures
            r == spec_vulcan_120(),
    {
        let product_id = VULCAN_120_PRODUCT_ID;
        Self {
            read_interface: HidInterfaceFilter::new_with_usage_page(
                product_id,
                READ_INTERFACE_NUMBER,
                USAGE_PAGE_READ_DEVICE,
            ),
            control_interface: HidInterfaceFilter::new(product_id, CONTROL_INTERFACE_NUMBER),
            led_interface: HidInterfaceFilter::new(product_id, LED_INTERFACE_NUMBER),
        }
    }

    /// The default models to look for, in the order they are tried.
    pub fn default_models() -> (r: Vec<KeyboardIntrefacesFilter>)
        ensures
            r@.len() == 2,
            r@[0] == spec_vulcan_100(),
            r@[1] == spec_vulcan_120(),
    {
        let mut r: Vec<KeyboardIntrefacesFilter> = Vec::new();
        r.push(Self::vulcan_100());
        r.push(Self::vulcan_120());
        r
    }
}

impl Default for KeyboardIntrefacesFilter {
    /// The Vulcan 120 filter set.
    fn default() -> (r: Self)
        ensures
            r == spec_vulcan_120(),
    {
        Self::vulcan_120()
    }
}

} // verus!
