//! Script-side access to Excel objects: decoding a proxy request, planning
//! the COM invocation it asks for, the registry of objects handed out to
//! scripts, and the reply built from the invocation's result.

use vstd::prelude::*;
use std::collections::HashMap;
use crate::error::BridgeError;
use crate::json::{JsonValue, field_of, u64_of, str_of, array_of};
use crate::variant::{VariantValue, json_to_variant, variant_of_json};

verus! {

broadcast use vstd::std_specs::hash::group_hash_axioms;

/// The scalar value of a reply.
#[derive(Debug, Clone, PartialEq)]
pub enum ReplyValue {
    Null,
    Bool(bool),
    Int(i32),
    /// A double, as its IEEE-754 bits.
    Real(u64),
    Text(String),
}

/// The reply to a proxy request: either a registered object, by its id, or
/// a plain value.
#[derive(Debug, Clone, PartialEq)]
pub enum ProxyReply {
    Object(u32),
    Value(ReplyValue),
}

/// Whether `r` is the reply value of a variant that is not an object:
/// strings, integers, doubles and booleans as they are, empty and null as
/// null, anything else as the text `[unsupported variant]`.
pub open spec fn reply_value_of<H>(v: VariantValue<H>, r: ReplyValue) -> bool {
    match v {
        VariantValue::Text(s) => r == ReplyValue::Text(s),
        VariantValue::Int(i) => r == ReplyValue::Int(i),
        VariantValue::Real(bits) => r == ReplyValue::Real(bits),
        VariantValue::Bool(raw) => r == ReplyValue::Bool(raw != 0),
        VariantValue::Empty => r == ReplyValue::Null,
        VariantValue::Null => r == ReplyValue::Null,
        _ => r matches ReplyValue::Text(t) && t@ == "[unsupported variant]"@,
    }
}

/// Whether every object registered in `before` is still registered under
/// the same id in `after`.
pub open spec fn keeps_registered<H>(before: Map<u32, H>, after: Map<u32, H>) -> bool {
    forall|id: u32| #[trigger] before.contains_key(id) ==> after.contains_key(id) && after[id] == before[id]
}

/// The objects handed out to scripts, by id. Ids start at 1 and are never
/// reused; id 0 stands for the Excel application itself.
pub struct ObjectRegistry<H> {
    objects: HashMap<u32, H>,
    next_id: u32,
}

impl<H> ObjectRegistry<H> {
    #[verifier::type_invariant]
    spec fn wf(self) -> bool {
        &&& 1 <= self.next_id
        &&& forall|k: u32| #[trigger] self.objects@.contains_key(k) ==> 1 <= k < self.next_id
    }

    /// The registered objects, by id.
    pub closed spec fn objects(self) -> Map<u32, H> {
        self.objects@
    }

    /// The id that the next registered object gets.
    pub closed spec fn next_free_id(self) -> u32 {
        self.next_id
    }

    /// An empty registry, whose first id is 1.
    pub fn new() -> (r: Self)
        ensures
            r.objects() == Map::<u32, H>::empty(),
            r.next_free_id() == 1,
    {
        ObjectRegistry { objects: HashMap::new(), next_id: 1 }
    }

    /// The id that the next registered object gets.
    pub fn next_id(&self) -> (r: u32)
        ensures
            r == self.next_free_id(),
            r >= 1,
    {
        proof { use_type_invariant(self); }
        self.next_id
    }

    /// The object registered under `id`, if any. Id 0 is never registered.
    pub fn lookup(&self, id: u32) -> (r: Option<&H>)
        ensures
            match r {
                Some(h) => self.objects().contains_key(id) && self.objects()[id] == *h,
                None => !self.objects().contains_key(id),
            },
            id == 0 ==> r is None,
            id >= self.next_free_id() ==> r is None,
    {
        proof { use_type_invariant(self); }
        self.objects.get(&id)
    }

    /// Registers an object under the next id and returns that id, which no
    /// object held before and which is not 0.
    pub fn register(&mut self, handle: H) -> (id: u32)
        requires
            old(self).next_free_id() < u32::MAX,
        ensures
            id == old(self).next_free_id(),
            id != 0,
            !old(self).objects().contains_key(id),
            final(self).objects() == old(self).objects().insert(id, handle),
            final(self).next_free_id() == id + 1,
            keeps_registered(old(self).objects(), final(self).objects()),
    {
        proof { use_type_invariant(&*self); }
        let id = self.next_id;
        self.next_id = id + 1;
        let mut objects: HashMap<u32, H> = HashMap::new();
        std::mem::swap(&mut objects, &mut self.objects);
        objects.insert(id, handle);
        self.objects = objects;
        id
    }

    /// The reply for the result of an invocation. An object result is
    /// registered and replied by its new id; any other result is replied as
    /// a value, and the registry is left as it was.
    pub fn variant_to_json(&mut self, v: VariantValue<H>) -> (r: ProxyReply)
        requires
            (v matches VariantValue::Dispatch(Some(_))) ==> old(self).next_free_id() < u32::MAX,
        ensures
            match v {
                VariantValue::Dispatch(Some(h)) => {
                    &&& r == ProxyReply::Object(old(self).next_free_id())
                    &&& old(self).next_free_id() != 0
                    &&& !old(self).objects().contains_key(old(self).next_free_id())
                    &&& final(self).objects() == old(self).objects().insert(old(self).next_free_id(), h)
                    &&& final(self).next_free_id() == old(self).next_free_id() + 1
                },
                _ => {
                    &&& final(self).objects() == old(self).objects()
                    &&& final(self).next_free_id() == old(self).next_free_id()
                    &&& r matches ProxyReply::Value(rv) && reply_value_of(v, rv)
                },
            },
            keeps_registered(old(self).objects(), final(self).objects()),
    {
        match v {
            VariantValue::Dispatch(Some(h)) => {
                let id = self.register(h);
                ProxyReply::Object(id)
            },
            VariantValue::Text(s) => ProxyReply::Value(ReplyValue::Text(s)),
            VariantValue::Int(i) => ProxyReply::Value(ReplyValue::Int(i)),
            VariantValue::Real(bits) => ProxyReply::Value(ReplyValue::Real(bits)),
            VariantValue::Bool(raw) => ProxyReply::Value(ReplyValue::Bool(raw != 0)),
            VariantValue::Empty => ProxyReply::Value(ReplyValue::Null),
            VariantValue::Null => ProxyReply::Value(ReplyValue::Null),
            _ => ProxyReply::Value(ReplyValue::Text(String::from_str("[unsupported variant]"))),
        }
    }
}

/// The object that a property holds: the pointer of a non-null object
/// variant; an error for a null object pointer or any other value.
pub fn dispatch_of<H>(v: VariantValue<H>) -> (r: Result<H, BridgeError>)
    ensures
        match v {
            VariantValue::Dispatch(Some(h)) => r == Ok::<H, BridgeError>(h),
            VariantValue::Dispatch(None) => r == Err::<H, BridgeError>(BridgeError::DispatchPropertyEmpty),
            _ => r == Err::<H, BridgeError>(BridgeError::PropertyNotDispatch),
        },
{
    match v {
        VariantValue::Dispatch(Some(h)) => Ok(h),
        VariantValue::Dispatch(None) => Err(BridgeError::DispatchPropertyEmpty),
        _ => Err(BridgeError::PropertyNotDispatch),
    }
}

/// What a proxy request asks for.
#[derive(PartialEq, Eq, Structural, Debug, Clone, Copy)]
pub enum ProxyAction {
    /// Read a property.
    Read,
    /// Write a property.
    Write,
    /// Call a method.
    Call,
}

/// The action that an action name asks for: `"set"` and `"call"` are
/// themselves, any other name reads a property.
pub open spec fn action_named(name: Seq<char>) -> ProxyAction {
    if name == "set"@ {
        ProxyAction::Write
    } else if name == "call"@ {
        ProxyAction::Call
    } else {
        ProxyAction::Read
    }
}

/// The object id of a request: its `id` field read as an unsigned integer
/// and cut to 32 bits, or 0.
pub open spec fn request_obj_id(req: JsonValue) -> u32 {
    match u64_of(field_of(req, "id"@)) {
        Some(n) => n as u32,
        None => 0,
    }
}

/// The member that a request names: its `member` string, or the empty text.
pub open spec fn request_member(req: JsonValue) -> Seq<char> {
    match str_of(field_of(req, "member"@)) {
        Some(s) => s,
        None => Seq::empty(),
    }
}

/// The action of a request: named by its `action` string, `"get"` when
/// there is none.
pub open spec fn request_action(req: JsonValue) -> ProxyAction {
    match str_of(field_of(req, "action"@)) {
        Some(s) => action_named(s),
        None => action_named("get"@),
    }
}

/// The call arguments of a request: its `args` array, or none.
pub open spec fn request_args(req: JsonValue) -> Seq<JsonValue> {
    match array_of(field_of(req, "args"@)) {
        Some(items) => items,
        None => Seq::empty(),
    }
}

/// The value that a request writes: its `value` field, or null.
pub open spec fn request_value(req: JsonValue) -> JsonValue {
    match field_of(req, "value"@) {
        Some(v) => v,
        None => JsonValue::Null,
    }
}

/// A decoded proxy request. The argument array and the written value are
/// borrowed from the request.
pub struct ProxyRequest<'a> {
    pub obj_id: u32,
    pub member: String,
    pub action: ProxyAction,
    pub args: Option<&'a Vec<JsonValue>>,
    pub value: Option<&'a JsonValue>,
}

impl<'a> ProxyRequest<'a> {
    /// The call arguments (none when the request has no argument array).
    pub open spec fn arg_values(self) -> Seq<JsonValue> {
        match self.args {
            Some(items) => items@,
            None => Seq::empty(),
        }
    }

    /// The written value (null when the request has none).
    pub open spec fn value_or_null(self) -> JsonValue {
        match self.value {
            Some(v) => *v,
            None => JsonValue::Null,
        }
    }
}

/// Decodes a proxy request: `{ id, member, action, args, value }`, each
/// field optional.
pub fn decode_proxy_request<'a>(req: &'a JsonValue) -> (r: ProxyRequest<'a>)
    ensures
        r.obj_id == request_obj_id(*req),
        r.member@ == request_member(*req),
        r.action == request_action(*req),
        r.arg_values() == request_args(*req),
        r.value_or_null() == request_value(*req),
        field_of(*req, "args"@) matches Some(JsonValue::Array(items)) ==> (r.args matches Some(a) && a@ == items@),
        field_of(*req, "value"@) matches Some(v) ==> (r.value matches Some(w) && *w == v),
{
    let obj_id: u32 = match req.field("id") {
        Some(JsonValue::Number(n)) => match n.as_u64() {
            Some(x) => #[verifier::truncate] (x as u32),
            None => 0,
        },
        _ => 0,
    };
    let member: String = match req.field("member") {
        Some(JsonValue::Str(s)) => s.clone(),
        _ => String::new(),
    };
    let action = match req.field("action") {
        Some(JsonValue::Str(s)) => action_of_name(s),
        _ => {
            let get = String::from_str("get");
            action_of_name(&get)
        },
    };
    let args: Option<&'a Vec<JsonValue>> = match req.field("args") {
        Some(JsonValue::Array(items)) => Some(items),
        _ => None,
    };
    let value = req.field("value");
    ProxyRequest { obj_id, member, action, args, value }
}

fn action_of_name(name: &String) -> (r: ProxyAction)
    ensures
        r == action_named(name@),
{
    let set = String::from_str("set");
    let call = String::from_str("call");
    if *name == set {
        ProxyAction::Write
    } else if *name == call {
        ProxyAction::Call
    } else {
        ProxyAction::Read
    }
}

/// The kind of COM invocation.
#[derive(PartialEq, Eq, Structural, Debug, Clone, Copy)]
pub enum InvokeKind {
    /// `DISPATCH_PROPERTYGET`, no arguments.
    PropertyGet,
    /// `DISPATCH_PROPERTYPUT`, one argument named `DISPID_PROPERTYPUT`.
    PropertyPut,
    /// `DISPATCH_METHOD | DISPATCH_PROPERTYGET`, positional arguments.
    MethodCall,
}

/// The invocation kind of an action.
pub open spec fn kind_of(a: ProxyAction) -> InvokeKind {
    match a {
        ProxyAction::Read => InvokeKind::PropertyGet,
        ProxyAction::Write => InvokeKind::PropertyPut,
        ProxyAction::Call => InvokeKind::MethodCall,
    }
}

/// A planned COM invocation. The arguments stand in COM order: the last
/// script argument first.
pub struct Invocation<H> {
    pub kind: InvokeKind,
    pub args: Vec<VariantValue<H>>,
}

/// The COM arguments of an invocation: none for a read, the written value
/// for a write, and the call arguments in reverse order for a call.
pub open spec fn invocation_args<H>(action: ProxyAction, args: Seq<JsonValue>, value: JsonValue) -> Seq<VariantValue<H>> {
    match action {
        ProxyAction::Read => Seq::empty(),
        ProxyAction::Write => seq![variant_of_json::<H>(value)],
        ProxyAction::Call => Seq::new(args.len(), |k: int| variant_of_json::<H>(args[args.len() - 1 - k])),
    }
}

/// Plans the COM invocation that a decoded request asks for.
pub fn plan_invocation<'a, H>(req: &ProxyRequest<'a>) -> (r: Invocation<H>)
    ensures
        r.kind == kind_of(req.action),
        r.args@ == invocation_args::<H>(req.action, req.arg_values(), req.value_or_null()),
{
    match req.action {
        ProxyAction::Read => Invocation { kind: InvokeKind::PropertyGet, args: Vec::new() },
        ProxyAction::Write => {
            let mut args: Vec<VariantValue<H>> = Vec::new();
            match req.value {
                Some(v) => args.push(json_to_variant(v)),
                None => args.push(VariantValue::Null),
            }
            proof {
                assert(args@ =~= invocation_args::<H>(req.action, req.arg_values(), req.value_or_null()));
            }
            Invocation { kind: InvokeKind::PropertyPut, args }
        },
        ProxyAction::Call => {
            let mut out: Vec<VariantValue<H>> = Vec::new();
            match req.args {
                Some(items) => {
                    let n = items.len();
                    let mut k: usize = n;
                    while k > 0
                        invariant
                            n == items@.len(),
                            k <= n,
                            out@.len() == n - k,
                            forall|j: int| 0 <= j < n - k ==> #[trigger] out@[j] == variant_of_json::<H>(items@[n - 1 - j]),
                        decreases k,
                    {
                        k = k - 1;
                        out.push(json_to_variant(&items[k]));
                    }
                },
                None => {},
            }
            proof {
                assert(out@ =~= invocation_args::<H>(req.action, req.arg_values(), req.value_or_null()));
            }
            Invocation { kind: InvokeKind::MethodCall, args: out }
        },
    }
}

/// The object a proxy request addresses: the running Excel application
/// (id 0), or a registered object.
pub enum ProxyTarget<'r, H> {
    ActiveApplication,
    Object(&'r H),
}

/// What the host does for a proxy request: invoke `member` on `target` as
/// `invocation` says.
pub struct ProxyCall<'r, H> {
    pub target: ProxyTarget<'r, H>,
    pub member: String,
    pub invocation: Invocation<H>,
}

impl<H> ObjectRegistry<H> {
    /// Decodes a proxy request, resolves the object it addresses and plans
    /// the invocation. Fails with `ObjectLost` exactly when the request
    /// names a non-zero id that the registry does not hold.
    pub fn prepare_proxy_call<'r>(&'r self, req: &JsonValue) -> (r: Result<ProxyCall<'r, H>, BridgeError>)
        ensures
            r is Err <==> (request_obj_id(*req) != 0 && !self.objects().contains_key(request_obj_id(*req))),
            r matches Err(e) ==> e == BridgeError::ObjectLost,
            r matches Ok(c) ==> {
                &&& c.member@ == request_member(*req)
                &&& c.invocation.kind == kind_of(request_action(*req))
                &&& c.invocation.args@ == invocation_args::<H>(request_action(*req), request_args(*req), request_value(*req))
                &&& (request_obj_id(*req) == 0 ==> c.target is ActiveApplication)
                &&& (request_obj_id(*req) != 0 ==> (c.target matches ProxyTarget::Object(h)
                    && *h == self.objects()[request_obj_id(*req)]))
            },
    {
        let decoded = decode_proxy_request(req);
        let target = if decoded.obj_id == 0 {
            ProxyTarget::ActiveApplication
        } else {
            match self.lookup(decoded.obj_id) {
                Some(h) => ProxyTarget::Object(h),
                None => { return Err(BridgeError::ObjectLost); },
            }
        };
        let invocation = plan_invocation(&decoded);
        Ok(ProxyCall { target, member: decoded.member, invocation })
    }
}

} // verus!
