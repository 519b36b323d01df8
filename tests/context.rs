use swagger::auth::{AuthData, Authorization, Scopes};
use swagger::{ContextBuilder, ContextWrapper, ContextWrapperExt, EmptyContext, Has, Pop, Push, XSpanIdString};

fn span(s: &str) -> XSpanIdString {
    XSpanIdString(s.to_string())
}

#[test]
fn push_then_get_each_member() {
    let ctx = EmptyContext
        .push(span("abc"))
        .push(Some(AuthData::apikey("key")))
        .push(None::<Authorization>);
    assert_eq!(Has::<XSpanIdString>::get(&ctx).0, "abc");
    assert_eq!(Has::<Option<AuthData>>::get(&ctx), &Some(AuthData::ApiKey("key".to_string())));
    assert_eq!(Has::<Option<Authorization>>::get(&ctx), &None);
}

#[test]
fn pop_then_push_back_keeps_every_value() {
    let ctx = EmptyContext
        .push(span("abc"))
        .push(Some(AuthData::apikey("key")))
        .push(None::<Authorization>);
    // take the innermost value out and put it back in front
    let (id, rest): (XSpanIdString, _) = ctx.clone().pop();
    let again = rest.push(id);
    assert_eq!(Has::<XSpanIdString>::get(&again).0, "abc");
    assert_eq!(Has::<Option<AuthData>>::get(&again), Has::<Option<AuthData>>::get(&ctx));
    assert_eq!(Has::<Option<Authorization>>::get(&again), Has::<Option<Authorization>>::get(&ctx));
    // the outermost value comes back to the very same list
    let (auth, rest): (Option<Authorization>, _) = ctx.clone().pop();
    let back = rest.push(auth);
    assert_eq!(back.head, ctx.head);
    assert_eq!(back.tail.head, ctx.tail.head);
    assert_eq!(back.tail.tail.head.0, ctx.tail.tail.head.0);
}

#[test]
fn later_push_shadows_earlier_value() {
    let ctx = EmptyContext.push(span("first")).push(span("second"));
    assert_eq!(Has::<XSpanIdString>::get(&ctx).0, "second");
    let (top, rest): (XSpanIdString, _) = ctx.pop();
    assert_eq!(top.0, "second");
    assert_eq!(Has::<XSpanIdString>::get(&rest).0, "first");
}

#[test]
fn set_and_get_mut_reach_nested_values() {
    let mut ctx: ContextBuilder<Option<Authorization>, ContextBuilder<XSpanIdString, EmptyContext>> =
        EmptyContext.push(span("a")).push(None::<Authorization>);
    Has::<XSpanIdString>::set(&mut ctx, span("b"));
    assert_eq!(Has::<XSpanIdString>::get(&ctx).0, "b");
    Has::<Option<Authorization>>::get_mut(&mut ctx).replace(Authorization {
        subject: "me".to_string(),
        scopes: Scopes::All,
        issuer: None,
    });
    assert_eq!(Has::<Option<Authorization>>::get(&ctx).as_ref().unwrap().subject, "me");
}

struct Api(u32);

impl<'a, C> ContextWrapperExt<'a, C> for Api {}

#[test]
fn context_wrapper_binds_api_and_context() {
    let api = Api(7);
    let w = ContextWrapper::new(&api, EmptyContext.push(span("x")));
    assert_eq!(w.api().0, 7);
    assert_eq!(Has::<XSpanIdString>::get(w.context()).0, "x");
    let w2 = api.with_context(EmptyContext);
    assert_eq!(w2.api().0, 7);
    assert_eq!(*w2.context(), EmptyContext);
}
