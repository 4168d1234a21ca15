use lua_env::host::{is_reserved, Env, Lua};
use lua_env::model::Error;
use lua_env::namespace::Namespace;
use lua_env::value::Value;

fn s(x: &str) -> String {
    x.to_string()
}

#[test]
fn namespace_set_get_overwrite() {
    let mut ns = Namespace::new();
    assert!(!ns.contains(&s("a")));
    assert_eq!(ns.get(&s("a")), None);
    ns.set(s("a"), Value::Integer(1));
    ns.set(s("b"), Value::Str(s("hi")));
    assert_eq!(ns.get(&s("a")), Some(Value::Integer(1)));
    ns.set(s("a"), Value::Boolean(true));
    assert_eq!(ns.get(&s("a")), Some(Value::Boolean(true)));
    assert_eq!(ns.get(&s("b")), Some(Value::Str(s("hi"))));
    assert!(ns.contains(&s("b")));
}

#[test]
fn value_duplicate_keeps_value() {
    let v = Value::Str(s("text"));
    assert_eq!(v.duplicate(), Value::Str(s("text")));
    assert_eq!(Value::Integer(-3).duplicate(), Value::Integer(-3));
}

#[test]
fn reserved_name_is_recognised() {
    assert!(is_reserved(&s("_ENV")));
    assert!(!is_reserved(&s("_ENv")));
    assert!(!is_reserved(&s("")));
}

#[test]
fn fresh_host_has_no_active_environment() {
    let mut lua = Lua::new();
    assert!(lua.current().is_none());
    assert_eq!(lua.read(&s("x")), Err(Error::NoActiveEnvironment));
    assert_eq!(lua.write(s("x"), Value::Integer(1)), Err(Error::NoActiveEnvironment));
}

#[test]
fn two_environments_are_isolated() {
    let mut lua = Lua::new();
    let env1 = Env::new(&mut lua);
    let env2 = Env::new(&mut lua);
    assert_ne!(env1, env2);
    env1.set(&mut lua).unwrap();
    assert_eq!(lua.read(&s("cat")), Ok(None));
    lua.write(s("cat"), Value::Integer(5)).unwrap();
    assert_eq!(lua.read(&s("cat")), Ok(Some(Value::Integer(5))));
    lua.write(s("cat"), Value::Integer(7)).unwrap();
    assert_eq!(lua.read(&s("cat")), Ok(Some(Value::Integer(7))));
    env2.set(&mut lua).unwrap();
    assert_eq!(lua.current(), Some(env2));
    assert_eq!(lua.read(&s("cat")), Ok(None));
}

#[test]
fn reactivation_keeps_values() {
    let mut lua = Lua::new();
    let e1 = Env::new(&mut lua);
    let e2 = Env::new(&mut lua);
    e1.set(&mut lua).unwrap();
    lua.write(s("x"), Value::Integer(7)).unwrap();
    e2.set(&mut lua).unwrap();
    lua.write(s("x"), Value::Integer(9)).unwrap();
    e1.set(&mut lua).unwrap();
    assert_eq!(lua.read(&s("x")), Ok(Some(Value::Integer(7))));
    e2.set(&mut lua).unwrap();
    assert_eq!(lua.read(&s("x")), Ok(Some(Value::Integer(9))));
    assert_eq!(e1.resolve_read(&lua, &s("x")), Ok(Some(Value::Integer(7))));
}

#[test]
fn base_value_shows_through_until_shadowed() {
    let mut lua = Lua::new();
    let e1 = Env::new(&mut lua);
    let e2 = Env::new(&mut lua);
    lua.privileged_set(s("notouchie"), Value::Integer(1));
    e1.set(&mut lua).unwrap();
    assert_eq!(lua.read(&s("notouchie")), Ok(Some(Value::Integer(1))));
    lua.write(s("notouchie"), Value::Integer(2)).unwrap();
    assert_eq!(lua.read(&s("notouchie")), Ok(Some(Value::Integer(2))));
    assert_eq!(lua.get(&s("notouchie")), Some(Value::Integer(1)));
    assert_eq!(e2.resolve_read(&lua, &s("notouchie")), Ok(Some(Value::Integer(1))));
}

#[test]
fn nil_write_brings_base_back() {
    let mut lua = Lua::new();
    let e = Env::new(&mut lua);
    lua.privileged_set(s("notouchie"), Value::Integer(1));
    e.set(&mut lua).unwrap();
    assert_eq!(lua.read(&s("notouchie")), Ok(Some(Value::Integer(1))));
    lua.write(s("notouchie"), Value::Integer(2)).unwrap();
    assert_eq!(lua.read(&s("notouchie")), Ok(Some(Value::Integer(2))));
    lua.write(s("notouchie"), Value::Nil).unwrap();
    assert_eq!(lua.read(&s("notouchie")), Ok(Some(Value::Integer(1))));
    assert_eq!(lua.get(&s("notouchie")), Some(Value::Integer(1)));
}

#[test]
fn unset_removes_local_binding() {
    let mut lua = Lua::new();
    let e = Env::new(&mut lua);
    lua.privileged_set(s("k"), Value::Integer(1));
    e.set(&mut lua).unwrap();
    lua.write(s("k"), Value::Integer(5)).unwrap();
    lua.write(s("only_local"), Value::Boolean(true)).unwrap();
    lua.unset(s("k")).unwrap();
    lua.unset(s("only_local")).unwrap();
    assert_eq!(lua.read(&s("k")), Ok(Some(Value::Integer(1))));
    assert_eq!(lua.read(&s("only_local")), Ok(None));
    assert_eq!(lua.unset(s("_ENV")), Err(Error::ReservedName));
    e.resolve_write(&mut lua, s("k"), Value::Integer(6)).unwrap();
    e.resolve_write(&mut lua, s("k"), Value::Nil).unwrap();
    assert_eq!(e.resolve_read(&lua, &s("k")), Ok(Some(Value::Integer(1))));
}

#[test]
fn unset_without_active_environment_fails() {
    let mut lua = Lua::new();
    assert_eq!(lua.unset(s("k")), Err(Error::NoActiveEnvironment));
}

#[test]
fn privileged_nil_removes_base_binding() {
    let mut lua = Lua::new();
    lua.privileged_set(s("b"), Value::Integer(3));
    lua.privileged_set(s("b"), Value::Nil);
    assert_eq!(lua.get(&s("b")), None);
}

#[test]
fn namespace_remove_and_assign() {
    let mut ns = Namespace::new();
    ns.set(s("a"), Value::Integer(1));
    ns.set(s("b"), Value::Integer(2));
    ns.set(s("c"), Value::Integer(3));
    ns.remove(&s("b"));
    assert!(!ns.contains(&s("b")));
    assert_eq!(ns.get(&s("a")), Some(Value::Integer(1)));
    assert_eq!(ns.get(&s("c")), Some(Value::Integer(3)));
    ns.remove(&s("absent"));
    ns.assign(s("a"), Value::Nil);
    assert_eq!(ns.get(&s("a")), None);
    ns.assign(s("d"), Value::Str(s("x")));
    assert_eq!(ns.get(&s("d")), Some(Value::Str(s("x"))));
    assert_eq!(ns.get(&s("c")), Some(Value::Integer(3)));
}

#[test]
fn base_is_read_only_to_scripts() {
    let mut lua = Lua::new();
    lua.privileged_set(s("present"), Value::Integer(1));
    assert_eq!(lua.intercepted_set(&s("present"), Value::Integer(2)), Err(Error::ReadOnlyViolation));
    assert_eq!(lua.intercepted_set(&s("absent"), Value::Integer(2)), Err(Error::ReadOnlyViolation));
    assert_eq!(lua.get(&s("present")), Some(Value::Integer(1)));
    assert_eq!(lua.get(&s("absent")), None);
}

#[test]
fn privileged_set_overwrites() {
    let mut lua = Lua::new();
    lua.privileged_set(s("n"), Value::Integer(1));
    lua.privileged_set(s("n"), Value::Integer(2));
    assert_eq!(lua.get(&s("n")), Some(Value::Integer(2)));
    let e = Env::new(&mut lua);
    e.set(&mut lua).unwrap();
    assert_eq!(lua.read(&s("n")), Ok(Some(Value::Integer(2))));
}

#[test]
fn reserved_name_is_refused_to_scripts() {
    let mut lua = Lua::new();
    let e = Env::new(&mut lua);
    e.set(&mut lua).unwrap();
    assert_eq!(lua.read(&s("_ENV")), Err(Error::ReservedName));
    assert_eq!(lua.write(s("_ENV"), Value::Integer(1)), Err(Error::ReservedName));
    assert_eq!(e.resolve_read(&lua, &s("_ENV")), Ok(None));
}

#[test]
fn override_scopes_one_call() {
    let mut lua = Lua::new();
    let ambient = Env::new(&mut lua);
    let other = Env::new(&mut lua);
    ambient.set(&mut lua).unwrap();
    lua.write(s("x"), Value::Integer(1)).unwrap();
    other.resolve_write(&mut lua, s("x"), Value::Integer(10)).unwrap();

    lua.begin_call(other).unwrap();
    assert_eq!(lua.read(&s("x")), Ok(Some(Value::Integer(10))));
    lua.write(s("x"), Value::Integer(11)).unwrap();
    lua.write(s("y"), Value::Integer(12)).unwrap();
    lua.end_call().unwrap();

    assert_eq!(lua.current(), Some(ambient));
    assert_eq!(lua.read(&s("x")), Ok(Some(Value::Integer(1))));
    assert_eq!(lua.read(&s("y")), Ok(None));
    assert_eq!(other.resolve_read(&lua, &s("y")), Ok(Some(Value::Integer(12))));
}

#[test]
fn override_outranks_activation_and_nests() {
    let mut lua = Lua::new();
    let a = Env::new(&mut lua);
    let b = Env::new(&mut lua);
    let c = Env::new(&mut lua);
    a.resolve_write(&mut lua, s("w"), Value::Str(s("a"))).unwrap();
    b.resolve_write(&mut lua, s("w"), Value::Str(s("b"))).unwrap();
    c.resolve_write(&mut lua, s("w"), Value::Str(s("c"))).unwrap();
    a.set(&mut lua).unwrap();
    lua.begin_call(b).unwrap();
    c.set(&mut lua).unwrap();
    assert_eq!(lua.read(&s("w")), Ok(Some(Value::Str(s("b")))));
    lua.begin_call(a).unwrap();
    assert_eq!(lua.read(&s("w")), Ok(Some(Value::Str(s("a")))));
    lua.end_call().unwrap();
    assert_eq!(lua.read(&s("w")), Ok(Some(Value::Str(s("b")))));
    lua.end_call().unwrap();
    assert_eq!(lua.read(&s("w")), Ok(Some(Value::Str(s("c")))));
    assert_eq!(lua.end_call(), Err(Error::NoPendingCall));
}

#[test]
fn foreign_handle_is_unknown() {
    let mut first = Lua::new();
    let _e0 = Env::new(&mut first);
    let e1 = Env::new(&mut first);
    let mut second = Lua::new();
    assert_eq!(e1.set(&mut second), Err(Error::UnknownEnvironment));
    assert!(second.current().is_none());
    assert_eq!(e1.resolve_read(&second, &s("x")), Err(Error::UnknownEnvironment));
    assert_eq!(e1.resolve_write(&mut second, s("x"), Value::Nil), Err(Error::UnknownEnvironment));
    assert_eq!(second.begin_call(e1), Err(Error::UnknownEnvironment));
}

#[test]
fn invoke_with_environment_resolves_in_override() {
    let mut lua = Lua::new();
    let ambient = Env::new(&mut lua);
    let other = Env::new(&mut lua);
    ambient.set(&mut lua).unwrap();
    lua.write(s("x"), Value::Integer(1)).unwrap();
    other.resolve_write(&mut lua, s("x"), Value::Integer(2)).unwrap();
    let seen = lua
        .invoke_with_environment(other, |mut l: Lua| {
            let v = l.read(&s("x"));
            l.write(s("x"), Value::Integer(3)).unwrap();
            (l, v)
        })
        .unwrap();
    assert_eq!(seen, Ok(Some(Value::Integer(2))));
    assert_eq!(lua.read(&s("x")), Ok(Some(Value::Integer(1))));
    assert_eq!(other.resolve_read(&lua, &s("x")), Ok(Some(Value::Integer(3))));
    assert_eq!(lua.end_call(), Err(Error::NoPendingCall));
}

#[test]
fn invoke_with_foreign_environment_fails() {
    let mut lua = Lua::new();
    let mut other_host = Lua::new();
    let _a = Env::new(&mut other_host);
    let b = Env::new(&mut other_host);
    let r = lua.invoke_with_environment(b, |l: Lua| (l, 5));
    assert_eq!(r, Err(Error::UnknownEnvironment));
}
