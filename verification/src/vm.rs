//! The boundary to the embedded interpreter. Everything that the library
//! asks of the interpreter goes through one of the functions below; what
//! they promise is believed, not proved.

use vstd::prelude::*;
use mlua::LuaSerdeExt;

verus! {

/// `mlua::Lua`: one interpreter instance.
#[verifier::external_type_specification]
#[verifier::external_body]
pub struct ExInterpreter(mlua::Lua);

/// `mlua::RegistryKey`: an opaque handle to a script value that the
/// interpreter keeps alive. The engine stores and replays such handles.
#[verifier::external_type_specification]
#[verifier::external_body]
pub struct ExRegistryKey(mlua::RegistryKey);

/// `mlua::Function`: a function defined by script code.
#[verifier::external_type_specification]
#[verifier::external_body]
pub struct ExFunction(mlua::Function);

/// `mlua::Table`: a table of the interpreter.
#[verifier::external_type_specification]
#[verifier::external_body]
pub struct ExTable(mlua::Table);

/// `mlua::Value`: any value of the interpreter.
#[verifier::external_type_specification]
#[verifier::external_body]
pub struct ExScriptValue(mlua::Value);

/// `serde_json::Number`: a JSON number.
#[verifier::external_type_specification]
#[verifier::external_body]
pub struct ExJsonNumber(serde_json::Number);

/// What a member of a JSON object holds, as far as scripts are shown it.
pub enum JsonScalar {
    Text(String),
    Number(serde_json::Number),
    Flag(bool),
    Other,
}

/// The variants of `serde_json::Value`: a string, a number or a boolean is
/// handed out as it is, everything else is `Other`.
#[verifier::external_body]
pub(crate) fn json_scalar(value: &serde_json::Value) -> (r: JsonScalar) {
    match value {
        serde_json::Value::String(s) => JsonScalar::Text(s.clone()),
        serde_json::Value::Number(n) => JsonScalar::Number(n.clone()),
        serde_json::Value::Bool(b) => JsonScalar::Flag(*b),
        _ => JsonScalar::Other,
    }
}

/// `serde_json::Map::iter` on the map of `serde_json::Value::Object`: the
/// members of a JSON object in the map's order; `None` for any other
/// document.
#[verifier::external_body]
pub(crate) fn json_members(value: &serde_json::Value) -> (r: Option<
    Vec<(String, serde_json::Value)>,
>) {
    match value {
        serde_json::Value::Object(map) => Some(
            map.iter().map(|(k, v)| (k.clone(), v.clone())).collect(),
        ),
        _ => None,
    }
}

/// `mlua::Table::set` with the number that `serde_json::Number::as_f64`
/// gives: stores a JSON number under `key`.
#[verifier::external_body]
pub(crate) fn table_set_number(table: &mlua::Table, key: &str, number: &serde_json::Number) -> (r:
    Result<(), mlua::Error>) {
    table.set(key, number.as_f64().unwrap_or_default())
}

/// `mlua::Table::set` with a boolean value: stores `flag` under `key`.
#[verifier::external_body]
pub(crate) fn table_set_flag(table: &mlua::Table, key: &str, flag: bool) -> (r: Result<
    (),
    mlua::Error,
>) {
    table.set(key, flag)
}

/// `mlua::Lua::new`: a fresh interpreter with the safe standard libraries.
#[verifier::external_body]
pub(crate) fn new_interpreter() -> (lua: mlua::Lua) {
    mlua::Lua::new()
}

/// `mlua::Chunk::exec`, on the chunk that `mlua::Lua::load` makes of `code`
/// and `mlua::Chunk::set_name` names: runs script text. Whether it succeeds
/// depends on the text and on the interpreter's state.
#[verifier::external_body]
pub(crate) fn run_chunk(lua: &mlua::Lua, code: &str, name: &str) -> (r: Result<(), mlua::Error>) {
    lua.load(code).set_name(name).exec()
}

/// `mlua::Lua::create_table`: a new, empty table.
#[verifier::external_body]
pub(crate) fn new_table(lua: &mlua::Lua) -> (r: Result<mlua::Table, mlua::Error>) {
    lua.create_table()
}

/// `mlua::Table::set` with a text value: stores `text` under `key`.
#[verifier::external_body]
pub(crate) fn table_set_text(table: &mlua::Table, key: &str, text: &str) -> (r: Result<
    (),
    mlua::Error,
>) {
    table.set(key, text)
}

/// `mlua::Table::set` with an integer value: stores `count` under `key`.
#[verifier::external_body]
pub(crate) fn table_set_count(table: &mlua::Table, key: &str, count: usize) -> (r: Result<
    (),
    mlua::Error,
>) {
    table.set(key, count)
}

/// `mlua::Table::set` with a table value: stores `value` under `key`.
#[verifier::external_body]
pub(crate) fn table_set_table(table: &mlua::Table, key: &str, value: mlua::Table) -> (r: Result<
    (),
    mlua::Error,
>) {
    table.set(key, value)
}

/// `mlua::Table::set` on the table that `mlua::Lua::globals` returns: makes
/// `value` the global variable `name`.
#[verifier::external_body]
pub(crate) fn set_global_table(lua: &mlua::Lua, name: &str, value: mlua::Table) -> (r: Result<
    (),
    mlua::Error,
>) {
    lua.globals().set(name, value)
}

/// `mlua::Table::set` on the globals with a text value: makes `text` the
/// global variable `name`.
#[verifier::external_body]
pub(crate) fn set_global_text(lua: &mlua::Lua, name: &str, text: &str) -> (r: Result<
    (),
    mlua::Error,
>) {
    lua.globals().set(name, text)
}

/// `mlua::Table::set` on the globals with nil: removes the global variable
/// `name`.
#[verifier::external_body]
pub(crate) fn clear_global(lua: &mlua::Lua, name: &str) -> (r: Result<(), mlua::Error>) {
    lua.globals().set(name, mlua::Value::Nil)
}

/// `mlua::Table::get` on the globals, as text: the global variable `name`
/// where it holds a string or a number, else `None`.
#[verifier::external_body]
pub(crate) fn global_text(lua: &mlua::Lua, name: &str) -> (r: Option<String>) {
    lua.globals().get::<String>(name).ok()
}

/// `mlua::Table::get` as text: the value under `key`, which must be a string
/// or a number. The table must belong to an interpreter that is alive; the
/// library calls this with tables that the interpreter hands to the
/// functions it calls, and with no others.
#[verifier::external_body]
pub(crate) fn table_text(table: &mlua::Table, key: &str) -> (r: Result<String, mlua::Error>) {
    table.get::<String>(key)
}

/// `mlua::Table::get` as optional text: the value under `key`; nil gives
/// `None`, anything but a string or a number is an error. The table must
/// belong to an interpreter that is alive, as for [`table_text`].
#[verifier::external_body]
pub(crate) fn table_optional_text(table: &mlua::Table, key: &str) -> (r: Result<
    Option<String>,
    mlua::Error,
>) {
    table.get::<Option<String>>(key)
}

/// `mlua::Table::get` as an optional list of texts: the sequence under `key`;
/// nil gives `None`. The table must belong to an interpreter that is alive,
/// as for [`table_text`].
#[verifier::external_body]
pub(crate) fn table_optional_texts(table: &mlua::Table, key: &str) -> (r: Result<
    Option<Vec<String>>,
    mlua::Error,
>) {
    table.get::<Option<Vec<String>>>(key)
}

/// `mlua::Table::get` as a function: the value under `key`, which must be a
/// function. The table must belong to an interpreter that is alive, as for
/// [`table_text`].
#[verifier::external_body]
pub(crate) fn table_function(table: &mlua::Table, key: &str) -> (r: Result<
    mlua::Function,
    mlua::Error,
>) {
    table.get::<mlua::Function>(key)
}

/// `mlua::Lua::create_registry_value`: keeps `f` alive in the interpreter and
/// returns the handle under which it can be found again. The function must
/// be one of `lua`; the library calls this with functions that `lua` hands
/// to the functions it calls, and with no others.
#[verifier::external_body]
pub(crate) fn store_function(lua: &mlua::Lua, f: mlua::Function) -> (r: Result<
    mlua::RegistryKey,
    mlua::Error,
>) {
    lua.create_registry_value(f)
}

/// `mlua::Lua::registry_value`: the function that was stored under `key`. It
/// fails where the handle belongs to another interpreter or holds no
/// function.
#[verifier::external_body]
pub(crate) fn stored_function(lua: &mlua::Lua, key: &mlua::RegistryKey) -> (r: Result<
    mlua::Function,
    mlua::Error,
>) {
    lua.registry_value::<mlua::Function>(key)
}

/// `mlua::Value::Table`: a table as a value.
#[verifier::external_body]
pub(crate) fn table_argument(table: mlua::Table) -> (v: mlua::Value) {
    mlua::Value::Table(table)
}

/// `mlua::Lua::create_string`: a text as a value of the interpreter.
#[verifier::external_body]
pub(crate) fn text_argument(lua: &mlua::Lua, text: &str) -> (r: Result<mlua::Value, mlua::Error>) {
    lua.create_string(text).map(mlua::Value::String)
}

/// `mlua::LuaSerdeExt::to_value`: a JSON document as a value of the
/// interpreter.
#[verifier::external_body]
pub(crate) fn json_argument(lua: &mlua::Lua, value: &serde_json::Value) -> (r: Result<
    mlua::Value,
    mlua::Error,
>) {
    lua.to_value(value)
}

/// `mlua::Error::RuntimeError`: an error that script code sees as raised with
/// `message`.
#[verifier::external_body]
pub(crate) fn script_failure(message: String) -> (e: mlua::Error) {
    mlua::Error::RuntimeError(message)
}

/// `mlua::Scope`: the extent within which handles to borrowed values are
/// valid.
#[verifier::external_type_specification]
#[verifier::external_body]
pub struct ExScope<'scope, 'env>(mlua::Scope<'scope, 'env>);

/// `mlua::AnyUserData`: a handle of the interpreter to a value of the host.
#[verifier::external_type_specification]
#[verifier::external_body]
pub struct ExAnyUserData(mlua::AnyUserData);

/// `mlua::Scope::create_any_userdata_ref_mut`: a handle to `host` that the
/// scope invalidates when it ends.
#[verifier::external_body]
pub(crate) fn scoped_handle<'scope, 'env, H: 'static>(
    scope: &'scope mlua::Scope<'scope, 'env>,
    host: &'env mut H,
) -> (r: Result<mlua::AnyUserData, mlua::Error>) {
    scope.create_any_userdata_ref_mut(host)
}

/// `mlua::Lua::set_named_registry_value`: stores `handle` under the registry
/// name `slot`.
#[verifier::external_body]
pub(crate) fn store_handle(lua: &mlua::Lua, slot: &str, handle: mlua::AnyUserData) -> (r: Result<
    (),
    mlua::Error,
>) {
    lua.set_named_registry_value(slot, handle)
}

/// `mlua::Lua::unset_named_registry_value`: empties the registry name `slot`.
#[verifier::external_body]
pub(crate) fn clear_handle(lua: &mlua::Lua, slot: &str) -> (r: Result<(), mlua::Error>) {
    lua.unset_named_registry_value(slot)
}

/// `mlua::Lua::named_registry_value`: the handle stored under the registry
/// name `slot`. It fails where the name holds no handle.
#[verifier::external_body]
pub(crate) fn stored_handle(lua: &mlua::Lua, slot: &str) -> (r: Result<
    mlua::AnyUserData,
    mlua::Error,
>) {
    lua.named_registry_value::<mlua::AnyUserData>(slot)
}

/// `mlua::Function::call`: calls `f` with `args` as its positional
/// arguments. Whether it succeeds is up to the script.
#[verifier::external_body]
pub(crate) fn call_function(f: &mlua::Function, args: Vec<mlua::Value>) -> (r: Result<
    (),
    mlua::Error,
>) {
    f.call::<()>(mlua::MultiValue::from_vec(args))
}

} // verus!
