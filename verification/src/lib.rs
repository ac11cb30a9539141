//! Terminal remote control for a networked audio player: a verified core
//! holding the track catalog model, the navigation state machine, and the
//! construction of every command sent to the remote device.

pub mod api;
pub mod app;
pub mod db;
pub mod text;
pub mod widgets;

use vstd::prelude::*;
use vstd::string::StrSliceExecFns;
use vstd::string::StringExecFns;

verus! {

/// True when the address already carries the `http://` scheme prefix.
pub open spec fn has_http_prefix(s: Seq<char>) -> bool {
    s.len() >= 7 && s.subrange(0, 7) == "http://"@
}

/// Normalizes a device address: an address without the `http://` scheme
/// prefix gets it prefixed, one with it is returned unchanged.
pub fn check_http_prefix(addr: String) -> (r: String)
    ensures
        r@ == if has_http_prefix(addr@) {
            addr@
        } else {
            "http://"@ + addr@
        },
{
    let len = addr.as_str().unicode_len();
    if len >= 7 {
        let prefix = addr.as_str().substring_char(0, 7);
        if crate::text::str_eq(prefix, "http://") {
            return addr;
        }
    }
    let mut r = String::from_str("http://");
    r.append(addr.as_str());
    r
}

} // verus!
