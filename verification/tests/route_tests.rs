use qute_analysis::route::analyse_file;
use qute_analysis::route::initialise_paramters;
use qute_analysis::route::parse_jakarta_http_method_annotation_name;
use qute_analysis::route::parse_jakarta_media_type;
use qute_analysis::route::parse_java_type_for_param;
use qute_analysis::route::HttpMethod;
use qute_analysis::route::MediaType;
use qute_analysis::route::Parameter;
use qute_analysis::route::ParameterType;
use qute_analysis::route::Route;

const FILE_CONTENT_NORMAL: &str = "package org.acme;

import jakarta.ws.rs.GET;
import jakarta.ws.rs.PUT;
import jakarta.ws.rs.Path;
import jakarta.ws.rs.PathParam;
import jakarta.ws.rs.Produces;
import jakarta.ws.rs.core.MediaType;

@Path(\"/hello\")
public class BasicResource {

    @GET
    @Produces(MediaType.TEXT_HTML)
    public String hello() {
        return \"hello\";
    }

    @GET
    @Path(\"/customer/{name}\")
    @Produces(MediaType.TEXT_HTML)
    public String customer(@PathParam(\"name\") String name) {
        return name;
    }

    @PUT
    @Path(\"/customer/{name}/{sufix}\")
    @Produces(MediaType.APPLICATION_JSON)
    public String customerPut(@PathParam(\"name\") String name, @PathParam(\"sufix\") int sufix) {
        return name;
    }

    @PUT
    @Path(\"/customer/{name}/{sufix}\")
    @Produces(MediaType.APPLICATION_JSON)
    public String customerPutAgain(@PathParam(\"name\") String name, @PathParam(\"sufix\") int sufix) {
        return name;
    }
}
";

const FILE_CONTENT_COMMENTED: &str = "package org.acme;

// the resource endpoints
import jakarta.ws.rs.GET;
import jakarta.ws.rs.PUT;
import jakarta.ws.rs.Path;
import jakarta.ws.rs.PathParam;
import jakarta.ws.rs.Produces;
import jakarta.ws.rs.core.MediaType;

/* the base resource */
@Path(\"/hello\")
// class level comment
public class BasicResource {

    // says hello
    @GET
    /* html answer */
    @Produces(MediaType.TEXT_HTML)
    public String hello() {
        // body comment
        return \"hello\";
    }

    @GET
    @Path(\"/customer/{name}\")
    @Produces(MediaType.TEXT_HTML)
    // a named greeting
    public String customer(@PathParam(\"name\") String name) {
        return name;
    }

    /* update */
    @PUT
    @Path(\"/customer/{name}/{sufix}\")
    @Produces(MediaType.APPLICATION_JSON)
    public String customerPut(@PathParam(\"name\") String name, @PathParam(\"sufix\") int sufix) {
        return name;
    }

    // twice, to keep the shape
    @PUT
    @Path(\"/customer/{name}/{sufix}\")
    @Produces(MediaType.APPLICATION_JSON)
    public String customerPutAgain(@PathParam(\"name\") String name, @PathParam(\"sufix\") int sufix) {
        return name;
    }
}
";

#[test]
fn commented_same() {
    assert_eq!(
        analyse_file("", FILE_CONTENT_NORMAL),
        analyse_file("", FILE_CONTENT_COMMENTED)
    );
}

#[test]
fn analyse_file_test() {
    let out = analyse_file("", FILE_CONTENT_NORMAL);
    assert_eq!(
        out,
        vec![
            Route {
                implementation: None,
                method: HttpMethod::Get,
                path: "/hello".to_string(),
                parameters: vec![],
                produces_type: MediaType::TextHtml
            },
            Route {
                implementation: None,
                method: HttpMethod::Get,
                path: "/hello/customer/{name}".to_string(),
                parameters: vec![Parameter {
                    name: "name".to_owned(),
                    java_type: ParameterType::String
                }],
                produces_type: MediaType::TextHtml
            },
            Route {
                implementation: None,
                method: HttpMethod::Put,
                path: "/hello/customer/{name}/{sufix}".to_string(),
                parameters: vec![
                    Parameter { name: "name".to_string(), java_type: ParameterType::String },
                    Parameter { name: "sufix".to_string(), java_type: ParameterType::Int },
                ],
                produces_type: MediaType::ApplicationJson,
            },
            Route {
                implementation: None,
                method: HttpMethod::Put,
                path: "/hello/customer/{name}/{sufix}".to_string(),
                parameters: vec![
                    Parameter { name: "name".to_string(), java_type: ParameterType::String },
                    Parameter { name: "sufix".to_string(), java_type: ParameterType::Int },
                ],
                produces_type: MediaType::ApplicationJson,
            },
        ]
    )
}

#[test]
fn append_to_base_merges() {
    let mut base = Route::default();
    base.path = "/hello/customer/{name}".to_string();
    base.parameters = initialise_paramters("/hello/customer/{name}");
    let mut method = Route::default();
    method.method = HttpMethod::Put;
    method.path = "/{sufix}".to_string();
    method.parameters = initialise_paramters("/{sufix}");
    method.produces_type = MediaType::ApplicationJson;
    let merged = base.append_to_base(method);
    assert_eq!(merged.path, "/hello/customer/{name}/{sufix}".to_string());
    assert_eq!(merged.method, HttpMethod::Put);
    assert_eq!(merged.produces_type, MediaType::ApplicationJson);
    assert_eq!(
        merged.parameters,
        vec![
            Parameter { name: "name".to_string(), java_type: ParameterType::Unknown(String::new()) },
            Parameter { name: "sufix".to_string(), java_type: ParameterType::Unknown(String::new()) },
        ]
    );
}

#[test]
fn append_to_base_trims_trailing_slash() {
    let mut base = Route::default();
    base.path = "/hello/".to_string();
    let mut method = Route::default();
    method.path = "/world".to_string();
    let merged = base.append_to_base(method);
    assert_eq!(merged.path, "/hello/world".to_string());
}

#[test]
fn initialise_parameters_from_placeholders() {
    let params = initialise_paramters("/a/{x}/b/{y}");
    assert_eq!(
        params,
        vec![
            Parameter { name: "x".to_string(), java_type: ParameterType::Unknown(String::new()) },
            Parameter { name: "y".to_string(), java_type: ParameterType::Unknown(String::new()) },
        ]
    );
    assert_eq!(initialise_paramters("/plain"), vec![]);
}

#[test]
fn media_type_table() {
    assert_eq!(parse_jakarta_media_type("TEXT_HTML"), Some(MediaType::TextHtml));
    assert_eq!(parse_jakarta_media_type("APPLICATION_JSON"), Some(MediaType::ApplicationJson));
    assert_eq!(parse_jakarta_media_type("SERVER_SENT_EVENTS"), Some(MediaType::ServerSentEvents));
    assert_eq!(parse_jakarta_media_type("TEXT_CSS"), None);
}

#[test]
fn http_method_table() {
    assert_eq!(parse_jakarta_http_method_annotation_name("GET"), Some(HttpMethod::Get));
    assert_eq!(parse_jakarta_http_method_annotation_name("PATCH"), Some(HttpMethod::Patch));
    assert_eq!(parse_jakarta_http_method_annotation_name("FETCH"), None);
}

#[test]
fn java_type_table() {
    assert_eq!(parse_java_type_for_param("String"), Some(ParameterType::String));
    assert_eq!(parse_java_type_for_param("int"), Some(ParameterType::Int));
    assert_eq!(parse_java_type_for_param("long"), Some(ParameterType::Long));
    assert_eq!(
        parse_java_type_for_param("UUID"),
        Some(ParameterType::Unknown("UUID".to_string()))
    );
}

#[test]
fn route_summary_string() {
    let route = Route::default();
    assert_eq!(route.to_string(), "GET: \n".to_string());
    let mut route = Route::default();
    route.method = HttpMethod::Put;
    route.path = "/p".to_string();
    route.parameters = vec![Parameter {
        name: "name".to_string(),
        java_type: ParameterType::String,
    }];
    assert_eq!(route.to_string(), "PUT: /p\n\n - String name".to_string());
}
