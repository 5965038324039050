use robot_code_gen::descriptor::{field_inits_string, params_string};
use robot_code_gen::naming::push_decimal;
use robot_code_gen::{
    generate_from_declarations, interface_name, method_ident, render_document, EnumDecl,
    EnumVisitor, MsgArg, MsgDescr, VariantDecl,
};

fn named(name: &str, ty: &str) -> MsgArg {
    MsgArg { ident: Some(name.to_string()), ty: ty.to_string() }
}

fn positional(ty: &str) -> MsgArg {
    MsgArg { ident: None, ty: ty.to_string() }
}

fn variant(name: &str, fields: Vec<MsgArg>) -> VariantDecl {
    VariantDecl { name: name.to_string(), fields }
}

fn names(ds: &[MsgDescr]) -> Vec<String> {
    ds.iter().map(|d| d.name().clone()).collect()
}

#[test]
fn method_ident_converts_and_is_idempotent() {
    assert_eq!(method_ident("LimitOrder"), "limit_order");
    assert_eq!(method_ident("GetUserBids"), "get_user_bids");
    assert_eq!(method_ident("limit_order"), "limit_order");
    let once = method_ident("RemoveLimitOrder");
    assert_eq!(method_ident(&once), once);
}

#[test]
fn interface_name_is_pascal_case_with_suffix() {
    assert_eq!(interface_name("robot_code_gen"), "RobotCodeGenRobot");
    assert_eq!(interface_name("order-book"), "OrderBookRobot");
}

#[test]
fn decimal_numerals() {
    for (n, text) in [(0usize, "0"), (7, "7"), (10, "10"), (1234, "1234")] {
        let mut s = "x".to_string();
        push_decimal(&mut s, n);
        assert_eq!(s, format!("x{}", text));
    }
}

#[test]
fn params_and_initialisers_keep_order() {
    let args = vec![named("b", "u8"), named("a", "Option < u64 >")];
    assert_eq!(params_string(&args), "b : u8 , a : Option < u64 > ,");
    assert_eq!(field_inits_string(&args), "b , a ,");
    assert_eq!(params_string(&vec![]), "");
    assert_eq!(field_inits_string(&vec![]), "");
    let args = vec![positional("u64"), positional("String")];
    assert_eq!(params_string(&args), "arg0 : u64 , arg1 : String ,");
    assert_eq!(field_inits_string(&args), "0 : arg0 , 1 : arg1 ,");
}

#[test]
fn command_signature_and_dispatch() {
    let d = MsgDescr::ExecuteMsg {
        ident: "MarketOrder".to_string(),
        args: vec![named("market_id", "u64")],
    };
    assert_eq!(
        d.to_trait_def(),
        "\tfn market_order(app: &mut App, market_id : u64 , funds: Vec<Coin>);"
    );
    assert_eq!(
        d.to_trait_impl(),
        "\tfn market_order(app: &mut App, contract: &Addr, caller: &Addr, market_id : u64 , funds: Vec<Coin>){\n\t\tlet msg = MarketOrder {market_id ,};\n\t\tapp.execute_contract(caller.to_owned(), contract.to_owned(), &msg, &funds).unwrap();\n\t}\n"
    );
    assert_eq!(
        d.trait_def_named("place"),
        "\tfn place(app: &mut App, market_id : u64 , funds: Vec<Coin>);"
    );
}

#[test]
fn query_signature_and_dispatch() {
    let d = MsgDescr::QueryMsg {
        ident: "GetMarketBook".to_string(),
        args: vec![named("market_id", "u64"), named("nb_levels", "u32")],
        return_type: "GetMarketBookResponse".to_string(),
    };
    assert_eq!(
        d.to_trait_def(),
        "\tfn get_market_book(app: &App, market_id : u64 , nb_levels : u32 ,) -> GetMarketBookResponse;"
    );
    assert_eq!(
        d.to_trait_impl(),
        "\tfn get_market_book(app: &App, contract: &Addr, market_id : u64 , nb_levels : u32 ,) -> GetMarketBookResponse{\n\t\tlet msg = GetMarketBook {market_id , nb_levels ,};\n\t\treturn app.wrap().query_wasm_smart(contract.to_owned(), &msg).unwrap();\n\t}\n"
    );
    assert_eq!(
        d.trait_impl_named("book"),
        "\tfn book(app: &App, contract: &Addr, market_id : u64 , nb_levels : u32 ,) -> GetMarketBookResponse{\n\t\tlet msg = GetMarketBook {market_id , nb_levels ,};\n\t\treturn app.wrap().query_wasm_smart(contract.to_owned(), &msg).unwrap();\n\t}\n"
    );
}

#[test]
fn visitor_applies_skip_rule_to_commands_only() {
    let commands = EnumDecl {
        name: "ExecuteMsg".to_string(),
        variants: vec![
            variant("Foo", vec![positional("u64")]),
            variant("LimitOrder", vec![named("market_id", "u64"), named("price", "Decimal")]),
            variant("Reset", vec![]),
        ],
    };
    let queries = EnumDecl {
        name: "QueryMsg".to_string(),
        variants: vec![variant("GetAdmin", vec![]), variant("Get", vec![positional("u8")])],
    };
    let mut visitor = EnumVisitor::new();
    visitor.visit_item_enum(&commands);
    visitor.visit_item_enum(&queries);
    assert_eq!(names(&visitor.execute_messages), vec!["LimitOrder", "Reset"]);
    assert_eq!(names(&visitor.query_messages), vec!["GetAdmin", "Get"]);
    match &visitor.execute_messages[0] {
        MsgDescr::ExecuteMsg { args, .. } => {
            assert_eq!(args.len(), 2);
            assert_eq!(args[0].ident.as_deref(), Some("market_id"));
            assert_eq!(args[1].ident.as_deref(), Some("price"));
        }
        MsgDescr::QueryMsg { .. } => panic!("a command is expected"),
    }
    let responses: Vec<String> = visitor
        .query_messages
        .iter()
        .map(|d| match d {
            MsgDescr::QueryMsg { return_type, .. } => return_type.clone(),
            MsgDescr::ExecuteMsg { .. } => panic!("a query is expected"),
        })
        .collect();
    assert_eq!(responses, vec!["GetAdminResponse", "GetResponse"]);

    // Visiting the same set again excludes the same variant again.
    visitor.visit_item_enum(&commands);
    assert_eq!(names(&visitor.execute_messages), vec!["LimitOrder", "Reset"]);
}

#[test]
fn other_enums_leave_visitor_unchanged() {
    let mut visitor = EnumVisitor::new();
    visitor.visit_item_enum(&EnumDecl {
        name: "ExecuteMsgs".to_string(),
        variants: vec![variant("A", vec![])],
    });
    visitor.visit_item_enum(&EnumDecl {
        name: "querymsg".to_string(),
        variants: vec![variant("B", vec![])],
    });
    assert!(visitor.execute_messages.is_empty());
    assert!(visitor.query_messages.is_empty());
}

#[test]
fn last_command_set_decides() {
    let decls = vec![
        EnumDecl { name: "ExecuteMsg".to_string(), variants: vec![variant("First", vec![])] },
        EnumDecl { name: "ExecuteMsg".to_string(), variants: vec![variant("Second", vec![])] },
    ];
    let mut visitor = EnumVisitor::new();
    visitor.visit_file(&decls);
    assert_eq!(names(&visitor.execute_messages), vec!["Second"]);
}

#[test]
fn document_from_hand_built_declarations() {
    let decls = vec![
        EnumDecl {
            name: "QueryMsg".to_string(),
            variants: vec![variant("GetAdmin", vec![])],
        },
        EnumDecl {
            name: "ExecuteMsg".to_string(),
            variants: vec![variant("Ping", vec![named("n", "u8")])],
        },
    ];
    let out = generate_from_declarations(&decls, "T");
    let expected = "pub trait T {\n\tfn ping(app: &mut App, n : u8 , funds: Vec<Coin>);\n\tfn get_admin(app: &App, ) -> GetAdminResponse;\n}\n\nimpl T for Robot {\n\tfn ping(app: &mut App, contract: &Addr, caller: &Addr, n : u8 , funds: Vec<Coin>){\n\t\tlet msg = Ping {n ,};\n\t\tapp.execute_contract(caller.to_owned(), contract.to_owned(), &msg, &funds).unwrap();\n\t}\n\tfn get_admin(app: &App, contract: &Addr, ) -> GetAdminResponse{\n\t\tlet msg = GetAdmin {};\n\t\treturn app.wrap().query_wasm_smart(contract.to_owned(), &msg).unwrap();\n\t}\n}";
    assert_eq!(out, expected);
}

#[test]
fn empty_document() {
    assert_eq!(
        render_document(&vec![], &vec![], "X"),
        "pub trait X {\n}\n\nimpl X for Robot {\n}"
    );
    let decls = vec![EnumDecl { name: "Other".to_string(), variants: vec![] }];
    assert_eq!(
        generate_from_declarations(&decls, "X"),
        "pub trait X {\n}\n\nimpl X for Robot {\n}"
    );
}
