use honk::cmd::{Command, Emit};
use honk::interp::{Bit, CharArray, Env, Int, Output, Sink, Value};

fn shown(v: Option<&Value<'_>>) -> Option<String> {
    v.map(|v| {
        let mut s = String::new();
        v.write(&mut s);
        s
    })
}

#[test]
fn a_new_environment_is_empty() {
    let mut env = Env::new();
    assert_eq!(env.depth(), 0);
    assert!(!env.is_first_iter());
    assert!(!env.is_sync());
    assert!(env.lookup_var("x").is_none());
    assert!(env.take_outputs().is_empty());
    let other: Env<'static> = Env::default();
    assert_eq!(other.depth(), 0);
}

#[test]
fn lookup_finds_the_innermost_binding() {
    let mut env = Env::new();
    env.push_scope();
    env.insert_var("x", Value::new(Int::new(1)));
    env.insert_var("y", Value::new(Int::new(10)));
    env.push_scope();
    env.insert_var("x", Value::new(Int::new(2)));
    assert_eq!(shown(env.lookup_var("x")), Some(String::from("2")));
    assert_eq!(shown(env.lookup_var("y")), Some(String::from("10")));
    assert!(env.lookup_var("z").is_none());
    env.pop_scope();
    assert_eq!(shown(env.lookup_var("x")), Some(String::from("1")));
    assert_eq!(env.depth(), 1);
}

#[test]
fn bind_writes_the_innermost_scope_only() {
    let mut env = Env::new();
    env.push_scope();
    env.insert_var("x", Value::new(Int::new(1)));
    env.push_scope();
    env.insert_var("x", Value::new(Bit::new(true)));
    env.insert_var("x", Value::new(Int::new(3)));
    env.insert_var("w", Value::new(Int::new(4)));
    assert_eq!(shown(env.lookup_var("x")), Some(String::from("3")));
    env.pop_scope();
    assert_eq!(shown(env.lookup_var("x")), Some(String::from("1")));
    assert!(env.lookup_var("w").is_none());
}

#[test]
fn bind_overwrites_whatever_the_type() {
    let mut env = Env::new();
    env.push_scope();
    env.insert_var("a", Value::new(Int::new(1)));
    env.insert_var("b", Value::new(Int::new(2)));
    env.insert_var("a", Value::new(CharArray::new(String::from("s"))));
    assert_eq!(shown(env.lookup_var("a")), Some(String::from("s")));
    assert_eq!(shown(env.lookup_var("b")), Some(String::from("2")));
    assert_eq!(env.lookup_var("a").unwrap().ty().pretty(), "chararray");
}

#[test]
fn flags_are_plain_markers() {
    let mut env = Env::new();
    env.set_first_iter(true);
    assert!(env.is_first_iter());
    env.set_sync(true);
    assert!(env.is_sync());
    assert!(env.is_first_iter());
    env.set_first_iter(false);
    assert!(!env.is_first_iter());
    assert!(env.is_sync());
    env.set_sync(false);
    assert!(!env.is_sync());
}

#[test]
fn outputs_come_out_oldest_first_and_once() {
    let mut env = Env::new();
    env.emit(Output { sink: Sink::Console, text: String::from("a") });
    env.emit(Output { sink: Sink::Error, text: String::from("b") });
    let out = env.take_outputs();
    assert_eq!(out.len(), 2);
    assert!(matches!(out[0].sink, Sink::Console));
    assert_eq!(out[0].text, "a");
    assert!(matches!(out[1].sink, Sink::Error));
    assert_eq!(out[1].text, "b");
    assert!(env.take_outputs().is_empty());
}

#[test]
fn should_emit_says_what_was_asked_for() {
    let c = Command { file: String::from("a.honk"), emit: vec![Emit::Ast] };
    assert!(c.should_emit(Emit::Ast));
    assert!(!c.should_emit(Emit::Tokens));
    let none = Command { file: String::from("a.honk"), emit: vec![] };
    assert!(!none.should_emit(Emit::Ast));
    let both = Command { file: String::from("a.honk"), emit: vec![Emit::Tokens, Emit::Ast] };
    assert!(both.should_emit(Emit::Tokens));
    assert!(both.should_emit(Emit::Ast));
}

#[test]
fn a_failed_write_is_the_io_exception() {
    let cause = std::io::Error::new(std::io::ErrorKind::Other, "disk full");
    let e = honk::interp::Exception::from(cause);
    assert!(matches!(e, honk::interp::Exception::Io));
    assert_eq!(e.message(), "IO operation failed");
}
