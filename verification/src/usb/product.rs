//! The product string of the gadget.

use vstd::prelude::*;

use crate::sysinfo::runtime::{dt_text, read_dt_string};
use crate::text::{joined, opt_text, same_text};
use crate::usb::config::DeviceConfig;

verus! {

/// The source of the product string: by default `custom` where a product string
/// is configured, and otherwise `model`.
pub open spec fn product_source(device: DeviceConfig) -> Seq<char> {
    match device.product_name_source {
        Some(source) => source@,
        None => if device.product_name is Some {
            "custom"@
        } else {
            "model"@
        },
    }
}

/// The model of the machine, as far as it could be read.
pub open spec fn model_text(model: Option<Seq<u8>>) -> Seq<char> {
    match model {
        Some(bytes) => match dt_text(bytes) {
            Some(text) => text,
            None => Seq::empty(),
        },
        None => Seq::empty(),
    }
}

/// Resolves the product string of the gadget. `model` is what the device tree
/// says of the machine, if that can be read.
pub fn resolve(device: &DeviceConfig, model: Option<&[u8]>) -> (product: Result<String, String>)
    ensures
        ({
            let source = product_source(*device);
            let custom = opt_text(device.product_name);
            if source == "custom"@ {
                match custom {
                    Some(name) => if name.len() > 0 {
                        product matches Ok(p) && p@ == name
                    } else {
                        product matches Err(e) && e@
                            == "product_name_source = \"custom\" requires a non-empty `product_name`"@
                    },
                    None => product matches Err(e) && e@
                        == "product_name_source = \"custom\" requires a non-empty `product_name`"@,
                }
            } else if source == "model"@ {
                product matches Ok(p) && p@ == model_text(
                    match model {
                        Some(bytes) => Some(bytes@),
                        None => None,
                    },
                )
            } else {
                product matches Err(e) && e@ == "invalid product_name_source: "@ + source
            }
        }),
{
    let source = match &device.product_name_source {
        Some(source) => source.as_str(),
        None => if device.product_name.is_some() {
            "custom"
        } else {
            "model"
        },
    };
    if same_text(source, "custom") {
        if let Some(name) = &device.product_name {
            if !name.as_str().is_empty() {
                return Ok(name.clone());
            }
        }
        return Err(
            "product_name_source = \"custom\" requires a non-empty `product_name`".to_owned(),
        );
    }
    if same_text(source, "model") {
        let text = match model {
            Some(bytes) => read_dt_string(bytes),
            None => None,
        };
        return match text {
            Some(text) => Ok(text),
            None => Ok(String::new()),
        };
    }
    Err(joined("invalid product_name_source: ", source))
}

/// Where the product string comes from. `custom` needs one that is not empty and
/// gives it as it is; `model` gives what the device tree says, or nothing. Without a
/// source a configured string counts as `custom`. There is no other source.
pub proof fn law_product_string(
    device: DeviceConfig,
    model: &[u8],
    name: Option<String>,
    product: Result<String, String>,
    unread: Result<String, String>,
)
    requires
        call_ensures(read_dt_string, (model,), name),
        call_ensures(resolve, (&device, Some(model)), product),
        call_ensures(resolve, (&device, None), unread),
    ensures
        ({
            let custom = (device.product_name_source is Some && device.product_name_source->0@
                == "custom"@) || (device.product_name_source is None && device.product_name
                is Some);
            let by_model = (device.product_name_source is Some && device.product_name_source->0@
                == "model"@) || (device.product_name_source is None && device.product_name is None);
            &&& custom && device.product_name is Some && device.product_name->0@.len() > 0 ==> (
            product matches Ok(p) && p@ == device.product_name->0@)
            &&& custom && (device.product_name is None || device.product_name->0@.len() == 0) ==> (
            product matches Err(e) && e@
                == "product_name_source = \"custom\" requires a non-empty `product_name`"@)
            &&& by_model && name is Some ==> (product matches Ok(p) && p@ == name->0@)
            &&& by_model && name is None ==> (product matches Ok(p) && p@.len() == 0)
            &&& by_model ==> (unread matches Ok(p) && p@.len() == 0)
            &&& !custom && !by_model ==> (product matches Err(e) && e@
                == "invalid product_name_source: "@ + device.product_name_source->0@)
        }),
{
    reveal_strlit("custom");
    reveal_strlit("model");
    assert("custom"@.len() != "model"@.len());
}

} // verus!
