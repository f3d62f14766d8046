use sip2_gateway::method::{
    MethodDef, MethodHandler, Param, ParamCount, ParamDataType, StaticMethodDef, StaticParam,
};

#[test]
fn param_count_boundaries() {
    assert!(ParamCount::matches(&ParamCount::Any, 0));
    assert!(ParamCount::matches(&ParamCount::Any, 255));
    assert!(ParamCount::matches(&ParamCount::Zero, 0));
    assert!(!ParamCount::matches(&ParamCount::Zero, 1));
    assert!(ParamCount::matches(&ParamCount::Exactly(1), 1));
    assert!(!ParamCount::matches(&ParamCount::Exactly(1), 10));
    assert!(ParamCount::matches(&ParamCount::AtLeast(10), 10));
    assert!(ParamCount::matches(&ParamCount::AtLeast(10), 20));
    assert!(!ParamCount::matches(&ParamCount::AtLeast(20), 10));
    assert!(ParamCount::matches(&ParamCount::Range(4, 6), 4));
    assert!(ParamCount::matches(&ParamCount::Range(4, 6), 5));
    assert!(ParamCount::matches(&ParamCount::Range(4, 6), 6));
    assert!(!ParamCount::matches(&ParamCount::Range(4, 6), 3));
    assert!(!ParamCount::matches(&ParamCount::Range(4, 6), 7));
}

#[test]
fn method_def_holds_its_parts() {
    let mut m = MethodDef::new("echo", ParamCount::Exactly(1), MethodHandler { id: 3 });
    assert_eq!(m.name(), "echo");
    assert!(matches!(m.param_count(), ParamCount::Exactly(1)));
    assert_eq!(m.handler().id, 3);
    assert!(!m.atomic());
    assert!(m.desc().is_none());
    assert!(m.params().is_none());

    m.set_name("echo2");
    assert_eq!(m.name(), "echo2");
    m.set_atomic(true);
    assert!(m.atomic());
    m.set_desc("Echoes its argument");
    assert_eq!(m.desc(), Some("Echoes its argument"));
}

#[test]
fn add_param_starts_and_extends_the_list() {
    let mut m = MethodDef::new("echo", ParamCount::Any, MethodHandler { id: 0 });
    m.add_param(Param {
        name: "first".to_string(),
        required: true,
        datatype: ParamDataType::String,
        desc: None,
    });
    assert_eq!(m.params().unwrap().len(), 1);
    m.add_param(Param {
        name: "second".to_string(),
        required: false,
        datatype: ParamDataType::Number,
        desc: Some("optional".to_string()),
    });
    let params = m.params().unwrap();
    assert_eq!(params.len(), 2);
    assert_eq!(params[0].name.as_str(), "first");
    assert_eq!(params[1].name.as_str(), "second");
}

#[test]
fn summary_string_quotes_parameter_names() {
    let mut m = MethodDef::new("echo", ParamCount::Any, MethodHandler { id: 0 });
    assert_eq!(m.to_summary_string().as_str(), "echo ()");
    m.add_param(Param {
        name: "a".to_string(),
        required: true,
        datatype: ParamDataType::String,
        desc: None,
    });
    assert_eq!(m.to_summary_string().as_str(), "echo ('a')");
    m.add_param(Param {
        name: "b".to_string(),
        required: true,
        datatype: ParamDataType::Any,
        desc: None,
    });
    assert_eq!(m.to_summary_string().as_str(), "echo ('a','b')");
}

#[test]
fn static_defs_translate_into_methods() {
    static PARAMS: [StaticParam; 2] = [
        StaticParam {
            name: "token",
            required: true,
            datatype: ParamDataType::String,
            desc: "session token",
        },
        StaticParam { name: "extra", required: false, datatype: ParamDataType::Any, desc: "" },
    ];
    let def = StaticMethodDef {
        name: "session.retrieve",
        desc: "",
        param_count: ParamCount::Range(1, 2),
        handler: MethodHandler { id: 9 },
        params: &PARAMS,
    };
    assert_eq!(def.name(), "session.retrieve");
    assert!(matches!(def.param_count(), ParamCount::Range(1, 2)));
    assert_eq!(def.handler().id, 9);

    let m = def.into_method("open-ils.actor");
    assert_eq!(m.name(), "open-ils.actor.session.retrieve");
    assert!(matches!(m.param_count(), ParamCount::Range(1, 2)));
    assert_eq!(m.handler().id, 9);
    assert!(!m.atomic());
    assert!(m.desc().is_none());
    let params = m.params().unwrap();
    assert_eq!(params.len(), 2);
    assert_eq!(params[0].name.as_str(), "token");
    assert!(params[0].required);
    assert_eq!(params[0].desc.as_deref(), Some("session token"));
    assert!(params[1].desc.is_none());
}

#[test]
fn into_method_keeps_a_nonempty_description() {
    let def = StaticMethodDef {
        name: "ping",
        desc: "Answers pong",
        param_count: ParamCount::Zero,
        handler: MethodHandler { id: 1 },
        params: &[],
    };
    let m = def.into_method("svc");
    assert_eq!(m.name(), "svc.ping");
    assert_eq!(m.desc(), Some("Answers pong"));
    assert!(m.params().is_none());
}
