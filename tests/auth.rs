use swagger::add_context::AddContextService;
use swagger::auth::{api_key_from_header, from_headers, AllowAllAuthenticator, MakeAllowAllAuthenticator};
use swagger::drop_context::{DropContextMakeService, DropContextService};
use swagger::{AuthData, Authorization, ContextBuilder, EmptyContext, Has, Scopes, XSpanIdString};
use swagger::AddContextMakeService;

#[test]
fn auth_data_constructors() {
    assert_eq!(AuthData::basic("foo", "bar"), AuthData::Basic("foo".to_string(), "bar".to_string()));
    assert_eq!(AuthData::apikey("k"), AuthData::ApiKey("k".to_string()));
    assert_eq!(AuthData::bearer("foo"), Some(AuthData::Bearer("foo".to_string())));
    assert_eq!(AuthData::bearer("  foo"), Some(AuthData::Bearer("foo".to_string())));
    assert_eq!(AuthData::bearer("a\nb"), None);
}

#[test]
fn allow_all_authorizes_the_subject() {
    let make: MakeAllowAllAuthenticator<u8, EmptyContext> = MakeAllowAllAuthenticator::new(1u8, "foo");
    let auth: AllowAllAuthenticator<u8, EmptyContext> = make.make(2u8);
    assert_eq!(*auth.get_inner(), 2);
    let ctx: ContextBuilder<Option<Authorization>, EmptyContext> = auth.authorize(EmptyContext);
    let expected = Some(Authorization { subject: "foo".to_string(), scopes: Scopes::All, issuer: None });
    assert_eq!(Has::<Option<Authorization>>::get(&ctx), &expected);
    let direct: AllowAllAuthenticator<u8, EmptyContext> = AllowAllAuthenticator::new(3, "bar");
    assert_eq!(
        Has::<Option<Authorization>>::get(&direct.clone().authorize(EmptyContext)).as_ref().unwrap().subject,
        "bar"
    );
}

#[test]
fn add_context_pushes_span_id() {
    let svc: AddContextService<u8, EmptyContext> = AddContextMakeService::<u8, EmptyContext>::new(0).make(5);
    assert_eq!(*svc.get_inner(), 5);
    let ctx: ContextBuilder<XSpanIdString, EmptyContext> =
        AddContextService::<u8, EmptyContext>::context_for(Some(b"span-1"));
    assert_eq!(Has::<XSpanIdString>::get(&ctx).0, "span-1");
    let fresh: ContextBuilder<XSpanIdString, EmptyContext> = AddContextService::<u8, EmptyContext>::context_for(None);
    assert_eq!(Has::<XSpanIdString>::get(&fresh).0.len(), 36);
}

#[test]
fn drop_context_passes_request_on() {
    let svc: DropContextService<u8, EmptyContext> = DropContextMakeService::<u8, EmptyContext>::new(1).make(9);
    assert_eq!(*svc.get_inner(), 9);
    assert_eq!(svc.strip(("request", EmptyContext)), "request");
}

#[test]
fn test_from_headers_basic() {
    assert_eq!(
        from_headers(Some(b"Basic Zm9vOmJhcg==")),
        Some(AuthData::Basic("foo".to_string(), "bar".to_string()))
    )
}

#[test]
fn test_from_headers_bearer() {
    assert_eq!(from_headers(Some(b"Bearer foo")), Some(AuthData::Bearer("foo".to_string())))
}

#[test]
fn from_headers_matches_scheme_in_any_case() {
    assert_eq!(
        from_headers(Some(b"bAsIc Zm9vOmJhcg==")),
        Some(AuthData::Basic("foo".to_string(), "bar".to_string()))
    );
    assert_eq!(from_headers(Some(b"BEARER   tok")), Some(AuthData::Bearer("tok".to_string())));
}

#[test]
fn from_headers_rejects_other_values() {
    assert_eq!(from_headers(None), None);
    assert_eq!(from_headers(Some(b"Digest abc")), None);
    assert_eq!(from_headers(Some(b"Basic !!!")), None);
    // "foobar" has no colon
    assert_eq!(from_headers(Some(b"Basic Zm9vYmFy")), None);
    assert_eq!(from_headers(Some(b"Bearer \xff")), None);
}

#[test]
fn api_key_reads_header_text() {
    assert_eq!(api_key_from_header(Some(b"secret")), Some("secret".to_string()));
    assert_eq!(api_key_from_header(Some(b"\x01")), None);
    assert_eq!(api_key_from_header(None), None);
}
