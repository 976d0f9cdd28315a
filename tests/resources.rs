use actix_web::{http, web, App};
use venja::server::index;

#[test]
fn index_ok() {
    let mut app = actix_web::test::init_service(App::new().route("/", web::get().to(index)));
    let req = actix_web::test::TestRequest::with_header("content-type", "text/plain").to_request();
    let resp = actix_web::test::call_service(&mut app, req);
    assert_eq!(resp.status(), http::StatusCode::OK);
}
