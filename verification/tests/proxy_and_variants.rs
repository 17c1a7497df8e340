use excel_deno_bridge::error::BridgeError;
use excel_deno_bridge::json::{JsonNumber, JsonValue};
use excel_deno_bridge::proxy::{
    decode_proxy_request, dispatch_of, plan_invocation, InvokeKind, ObjectRegistry, ProxyAction,
    ProxyReply, ProxyTarget, ReplyValue,
};
use excel_deno_bridge::variant::{json_to_variant, variant_to_plain_string, PlainText, VariantValue};

fn jint(i: i64) -> JsonValue {
    JsonValue::Number(JsonNumber::from_i64(i, Some((i as f64).to_bits())))
}

fn jreal(f: f64) -> JsonValue {
    JsonValue::Number(JsonNumber::from_f64_bits(Some(f.to_bits())))
}

fn s(t: &str) -> JsonValue {
    JsonValue::Str(t.to_string())
}

fn obj(fields: Vec<(&str, JsonValue)>) -> JsonValue {
    JsonValue::Object(fields.into_iter().map(|(k, v)| (k.to_string(), v)).collect())
}

#[test]
fn plain_text_of_variants() {
    let t = |v: VariantValue<u32>| variant_to_plain_string(&v);
    assert_eq!(t(VariantValue::Text("abc".to_string())), PlainText::Text("abc".to_string()));
    assert_eq!(t(VariantValue::Int(-17)), PlainText::Text("-17".to_string()));
    assert_eq!(t(VariantValue::Real(2.5f64.to_bits())), PlainText::Real(2.5f64.to_bits()));
    assert_eq!(t(VariantValue::Bool(-1)), PlainText::Text("true".to_string()));
    assert_eq!(t(VariantValue::Bool(1)), PlainText::Text("true".to_string()));
    assert_eq!(t(VariantValue::Bool(0)), PlainText::Text("false".to_string()));
    assert_eq!(t(VariantValue::Empty), PlainText::Text(String::new()));
    assert_eq!(t(VariantValue::Null), PlainText::Text(String::new()));
    assert_eq!(t(VariantValue::Dispatch(Some(3))), PlainText::Text("[variant]".to_string()));
    assert_eq!(t(VariantValue::Other), PlainText::Text("[variant]".to_string()));
}

#[test]
fn json_arguments_become_variants() {
    let v = |j: JsonValue| json_to_variant::<u32>(&j);
    assert_eq!(v(s("x")), VariantValue::Text("x".to_string()));
    assert_eq!(v(jint(42)), VariantValue::Int(42));
    assert_eq!(v(jint(-5)), VariantValue::Int(-5));
    assert_eq!(v(jint(5_000_000_000)), VariantValue::Int(705_032_704));
    assert_eq!(v(jreal(1.25)), VariantValue::Real(1.25f64.to_bits()));
    let huge = JsonValue::Number(JsonNumber::from_u64(u64::MAX, Some((u64::MAX as f64).to_bits())));
    assert_eq!(v(huge), VariantValue::Real((u64::MAX as f64).to_bits()));
    let no_reading = JsonValue::Number(JsonNumber::from_f64_bits(None));
    assert_eq!(v(no_reading), VariantValue::Empty);
    assert_eq!(v(JsonValue::Bool(true)), VariantValue::Bool(-1));
    assert_eq!(v(JsonValue::Bool(false)), VariantValue::Bool(0));
    assert_eq!(v(JsonValue::Null), VariantValue::Null);
    assert_eq!(v(JsonValue::Array(vec![jint(1)])), VariantValue::Empty);
    assert_eq!(v(obj(vec![])), VariantValue::Empty);
}

#[test]
fn field_lookup_takes_the_first_entry() {
    let o = obj(vec![("a", jint(1)), ("b", s("x")), ("a", jint(2))]);
    assert_eq!(o.field("a"), Some(&jint(1)));
    assert_eq!(o.field("b"), Some(&s("x")));
    assert_eq!(o.field("c"), None);
    assert_eq!(JsonValue::Array(vec![]).field("a"), None);
    assert_eq!(s("a").field("a"), None);
}

#[test]
fn request_defaults() {
    let req = obj(vec![]);
    let d = decode_proxy_request(&req);
    assert_eq!(d.obj_id, 0);
    assert_eq!(d.member, "");
    assert_eq!(d.action, ProxyAction::Read);
    assert!(d.args.is_none());
    assert!(d.value.is_none());
    let not_an_object = JsonValue::Null;
    let d = decode_proxy_request(&not_an_object);
    assert_eq!(d.obj_id, 0);
    assert_eq!(d.action, ProxyAction::Read);
}

#[test]
fn request_fields() {
    let req = obj(vec![
        ("id", jint(7)),
        ("member", s("Range")),
        ("action", s("call")),
        ("args", JsonValue::Array(vec![s("A1"), jint(2)])),
    ]);
    let d = decode_proxy_request(&req);
    assert_eq!(d.obj_id, 7);
    assert_eq!(d.member, "Range");
    assert_eq!(d.action, ProxyAction::Call);
    assert_eq!(d.args.map(|a| a.len()), Some(2));
    let set = obj(vec![("action", s("set")), ("value", JsonValue::Bool(true))]);
    assert_eq!(decode_proxy_request(&set).action, ProxyAction::Write);
    assert_eq!(decode_proxy_request(&set).value, Some(&JsonValue::Bool(true)));
    let other = obj(vec![("action", s("delete")), ("member", jint(3)), ("id", s("9"))]);
    let d = decode_proxy_request(&other);
    assert_eq!(d.action, ProxyAction::Read);
    assert_eq!(d.member, "");
    assert_eq!(d.obj_id, 0);
    let wide = obj(vec![("id", jint((1i64 << 32) + 3))]);
    assert_eq!(decode_proxy_request(&wide).obj_id, 3);
    let negative = obj(vec![("id", jint(-1))]);
    assert_eq!(decode_proxy_request(&negative).obj_id, 0);
}

#[test]
fn call_arguments_are_reversed() {
    let req = obj(vec![
        ("action", s("call")),
        ("args", JsonValue::Array(vec![s("A1"), jint(2), JsonValue::Null])),
    ]);
    let d = decode_proxy_request(&req);
    let inv = plan_invocation::<u32>(&d);
    assert_eq!(inv.kind, InvokeKind::MethodCall);
    assert_eq!(
        inv.args,
        vec![VariantValue::Null, VariantValue::Int(2), VariantValue::Text("A1".to_string())]
    );
    let no_args = obj(vec![("action", s("call"))]);
    let inv = plan_invocation::<u32>(&decode_proxy_request(&no_args));
    assert_eq!(inv.kind, InvokeKind::MethodCall);
    assert!(inv.args.is_empty());
}

#[test]
fn write_and_read_plans() {
    let set = obj(vec![("action", s("set")), ("value", jint(10))]);
    let inv = plan_invocation::<u32>(&decode_proxy_request(&set));
    assert_eq!(inv.kind, InvokeKind::PropertyPut);
    assert_eq!(inv.args, vec![VariantValue::Int(10)]);
    let set_nothing = obj(vec![("action", s("set"))]);
    let inv = plan_invocation::<u32>(&decode_proxy_request(&set_nothing));
    assert_eq!(inv.args, vec![VariantValue::Null]);
    let get = obj(vec![("member", s("Value")), ("args", JsonValue::Array(vec![jint(1)]))]);
    let inv = plan_invocation::<u32>(&decode_proxy_request(&get));
    assert_eq!(inv.kind, InvokeKind::PropertyGet);
    assert!(inv.args.is_empty());
}

#[test]
fn registry_hands_out_fresh_ids() {
    let mut reg: ObjectRegistry<&str> = ObjectRegistry::new();
    assert_eq!(reg.next_id(), 1);
    assert_eq!(reg.lookup(0), None);
    assert_eq!(reg.register("sheet"), 1);
    assert_eq!(reg.register("range"), 2);
    assert_eq!(reg.lookup(1), Some(&"sheet"));
    assert_eq!(reg.lookup(2), Some(&"range"));
    assert_eq!(reg.lookup(3), None);
    assert_eq!(reg.next_id(), 3);
}

#[test]
fn replies_for_results() {
    let mut reg: ObjectRegistry<&str> = ObjectRegistry::new();
    assert_eq!(reg.variant_to_json(VariantValue::Dispatch(Some("book"))), ProxyReply::Object(1));
    assert_eq!(reg.lookup(1), Some(&"book"));
    assert_eq!(reg.variant_to_json(VariantValue::Text("hi".to_string())), ProxyReply::Value(ReplyValue::Text("hi".to_string())));
    assert_eq!(reg.variant_to_json(VariantValue::Int(9)), ProxyReply::Value(ReplyValue::Int(9)));
    assert_eq!(reg.variant_to_json(VariantValue::Real(3.5f64.to_bits())), ProxyReply::Value(ReplyValue::Real(3.5f64.to_bits())));
    assert_eq!(reg.variant_to_json(VariantValue::Bool(-1)), ProxyReply::Value(ReplyValue::Bool(true)));
    assert_eq!(reg.variant_to_json(VariantValue::Bool(0)), ProxyReply::Value(ReplyValue::Bool(false)));
    assert_eq!(reg.variant_to_json(VariantValue::Empty), ProxyReply::Value(ReplyValue::Null));
    assert_eq!(reg.variant_to_json(VariantValue::Null), ProxyReply::Value(ReplyValue::Null));
    let unsupported = ProxyReply::Value(ReplyValue::Text("[unsupported variant]".to_string()));
    assert_eq!(reg.variant_to_json(VariantValue::Dispatch(None)), unsupported);
    assert_eq!(reg.variant_to_json(VariantValue::Other), unsupported);
    assert_eq!(reg.next_id(), 2);
}

#[test]
fn scalar_round_trip() {
    let mut reg: ObjectRegistry<u32> = ObjectRegistry::new();
    for (j, expected) in [
        (s("text"), ReplyValue::Text("text".to_string())),
        (JsonValue::Bool(true), ReplyValue::Bool(true)),
        (JsonValue::Null, ReplyValue::Null),
        (jint(-123), ReplyValue::Int(-123)),
        (jreal(0.5), ReplyValue::Real(0.5f64.to_bits())),
    ] {
        let variant = json_to_variant::<u32>(&j);
        assert_eq!(reg.variant_to_json(variant), ProxyReply::Value(expected));
    }
}

#[test]
fn dispatch_properties() {
    assert_eq!(dispatch_of(VariantValue::Dispatch(Some(4u32))), Ok(4));
    assert_eq!(dispatch_of::<u32>(VariantValue::Dispatch(None)), Err(BridgeError::DispatchPropertyEmpty));
    assert_eq!(dispatch_of::<u32>(VariantValue::Int(1)), Err(BridgeError::PropertyNotDispatch));
    assert_eq!(dispatch_of::<u32>(VariantValue::Empty), Err(BridgeError::PropertyNotDispatch));
}

#[test]
fn proxy_calls_resolve_their_target() {
    let mut reg: ObjectRegistry<&str> = ObjectRegistry::new();
    reg.register("workbook");
    let app_req = obj(vec![("member", s("ActiveWorkbook"))]);
    let call = reg.prepare_proxy_call(&app_req).ok().unwrap();
    assert!(matches!(call.target, ProxyTarget::ActiveApplication));
    assert_eq!(call.member, "ActiveWorkbook");
    assert_eq!(call.invocation.kind, InvokeKind::PropertyGet);
    let obj_req = obj(vec![("id", jint(1)), ("member", s("Name")), ("action", s("set")), ("value", s("Q1"))]);
    let call = reg.prepare_proxy_call(&obj_req).ok().unwrap();
    assert!(matches!(call.target, ProxyTarget::Object(&"workbook")));
    assert_eq!(call.invocation.kind, InvokeKind::PropertyPut);
    assert_eq!(call.invocation.args, vec![VariantValue::Text("Q1".to_string())]);
    let lost = obj(vec![("id", jint(7)), ("member", s("Name"))]);
    assert_eq!(reg.prepare_proxy_call(&lost).err(), Some(BridgeError::ObjectLost));
}

#[test]
fn number_readings_agree() {
    let n = JsonNumber::from_u64(7, Some(7f64.to_bits()));
    assert_eq!((n.as_u64(), n.as_i64()), (Some(7), Some(7)));
    let n = JsonNumber::from_u64(u64::MAX, None);
    assert_eq!((n.as_u64(), n.as_i64()), (Some(u64::MAX), None));
    let n = JsonNumber::from_i64(-3, Some((-3f64).to_bits()));
    assert_eq!((n.as_u64(), n.as_i64(), n.as_f64_bits()), (None, Some(-3), Some((-3f64).to_bits())));
    let n = JsonNumber::from_i64(5, None);
    assert_eq!(n.as_u64(), Some(5));
    let n = JsonNumber::from_f64_bits(Some(0.5f64.to_bits()));
    assert_eq!((n.as_u64(), n.as_i64()), (None, None));
}

#[test]
fn registered_ids_keep_their_objects() {
    let mut reg: ObjectRegistry<&str> = ObjectRegistry::new();
    let a = reg.register("a");
    let b = match reg.variant_to_json(VariantValue::Dispatch(Some("b"))) {
        ProxyReply::Object(id) => id,
        _ => unreachable!(),
    };
    for name in ["c", "d", "e"] {
        reg.register(name);
        reg.variant_to_json(VariantValue::Int(1));
    }
    assert_eq!((a, b), (1, 2));
    assert_eq!(reg.lookup(a), Some(&"a"));
    assert_eq!(reg.lookup(b), Some(&"b"));
    let req = obj(vec![("id", jint(2)), ("member", s("Name"))]);
    assert!(matches!(reg.prepare_proxy_call(&req).ok().unwrap().target, ProxyTarget::Object(&"b")));
}
