//! The bridge between a dispatch and the host's state. Before script code is
//! entered the host is bound: the interpreter is given a handle to it, and
//! the plugin that the script runs for is named. On every way out the name
//! and the handle are taken away again, and the handle itself ends with the
//! scope of the call, so that nothing outside a dispatch reaches the host.

use vstd::prelude::*;
use crate::vm::call_function;
use crate::vm::clear_global;
use crate::vm::clear_handle;
use crate::vm::scoped_handle;
use crate::vm::set_global_text;
use crate::vm::store_handle;
use crate::vm::stored_handle;

verus! {

/// The registry name under which the interpreter holds the handle to the
/// host while a dispatch is in progress.
pub fn host_slot() -> (r: &'static str)
    ensures
        r@ == "helix.host"@,
{
    "helix.host"
}

/// The global variable that names the plugin whose script is running.
pub fn current_plugin_global() -> (r: &'static str)
    ensures
        r@ == "_current_plugin_name"@,
{
    "_current_plugin_name"
}

/// What a bound call gives: a failure to take the binding away again counts
/// before the outcome of the call, the name before the handle.
pub fn settle(
    outcome: Result<(), mlua::Error>,
    unnamed: Result<(), mlua::Error>,
    released: Result<(), mlua::Error>,
) -> (r: Result<(), mlua::Error>)
    ensures
        unnamed matches Err(e) ==> r == Err::<(), mlua::Error>(e),
        unnamed is Ok && released is Err ==> r == Err::<(), mlua::Error>(released->Err_0),
        unnamed is Ok && released is Ok ==> r == outcome,
{
    match unnamed {
        Err(e) => Err(e),
        Ok(()) => match released {
            Err(e) => Err(e),
            Ok(()) => outcome,
        },
    }
}

/// Calls `f` for the plugin `owner` with the host bound: the handle is made
/// and stored, the plugin is named, the function is called, and the name and
/// the handle are taken away again whatever the call gave. Where the
/// binding cannot be set up the function is not called.
pub(crate) fn call_in_scope<'scope, 'env, H: 'static>(
    lua: &mlua::Lua,
    scope: &'scope mlua::Scope<'scope, 'env>,
    host: &'env mut H,
    owner: &str,
    f: &mlua::Function,
    args: Vec<mlua::Value>,
) -> (r: Result<(), mlua::Error>) {
    let handle = match scoped_handle(scope, host) {
        Ok(h) => h,
        Err(e) => {
            return Err(e);
        },
    };
    match store_handle(lua, host_slot(), handle) {
        Ok(()) => {},
        Err(e) => {
            return Err(e);
        },
    }
    let outcome = match set_global_text(lua, current_plugin_global(), owner) {
        Ok(()) => call_function(f, args),
        Err(e) => Err(e),
    };
    let unnamed = clear_global(lua, current_plugin_global());
    let released = clear_handle(lua, host_slot());
    settle(outcome, unnamed, released)
}

/// `mlua::Lua::scope`: runs [`call_in_scope`] within a scope of the
/// interpreter, so that the handle to `host` that is made there ends with
/// the call. What the callback does to `host`, and whether it succeeds, is
/// up to the script.
#[verifier::external_body]
pub(crate) fn call_bound<H: 'static>(
    lua: &mlua::Lua,
    host: &mut H,
    owner: &str,
    f: &mlua::Function,
    args: Vec<mlua::Value>,
) -> (r: Result<(), mlua::Error>) {
    lua.scope(|scope| call_in_scope(lua, scope, host, owner, f, args))
}

/// Whether a host is bound, that is, whether a call made by [`call_bound`]
/// is in progress.
pub fn host_is_bound(lua: &mlua::Lua) -> (bound: bool) {
    stored_handle(lua, host_slot()).is_ok()
}

} // verus!
