//! Shortcut registration helpers: the desktop registry value and key for a
//! binding, so the compositor picks new bindings up without interaction.

use vstd::prelude::*;

use crate::config::ShortcutConfig;

verus! {

/// Application id registered with the portal.
pub const APP_ID: &'static str = "io.github.hy26v.Voxkey";

/// The GVariant text value the desktop registry expects for one binding:
/// `[('id', {'shortcuts': <['trigger']>, 'description': <'description'>})]`.
pub open spec fn dconf_value_spec(c: ShortcutConfigV) -> Seq<char> {
    "[('"@ + c.id + "', {'shortcuts': <['"@ + c.trigger + "']>, 'description': <'"@
        + c.description + "'>})]"@
}

use crate::config::ShortcutConfigV;

/// Format a shortcut config as a GVariant text value for the desktop
/// registry schema.
pub fn format_dconf_value(config: &ShortcutConfig) -> (r: String)
    ensures
        r@ == dconf_value_spec(config@),
{
    let mut r = String::from_str("[('");
    r.append(config.id.as_str());
    r.append("', {'shortcuts': <['");
    r.append(config.trigger.as_str());
    r.append("']>, 'description': <'");
    r.append(config.description.as_str());
    r.append("'>})]");
    r
}

/// The registry key the binding is written under.
pub fn dconf_key() -> (r: String)
    ensures
        r@ == "/org/gnome/settings-daemon/global-shortcuts/"@ + APP_ID@ + "/shortcuts"@,
{
    let mut r = String::from_str("/org/gnome/settings-daemon/global-shortcuts/");
    r.append(APP_ID);
    r.append("/shortcuts");
    r
}

} // verus!
