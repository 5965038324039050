use robot_code_gen::{render_robot_code, GenerateError};

const HEADER: &str = "pub trait RobotCodeGenRobot {\n";
const MIDDLE: &str = "}\n\nimpl RobotCodeGenRobot for Robot {\n";

fn generate(source: &str) -> String {
    match render_robot_code(source, None) {
        Ok(text) => text,
        Err(GenerateError::Parse(message)) => panic!("unexpected parse error: {}", message),
    }
}

#[test]
fn scenario_a_limit_order() {
    let out = generate(
        "pub enum ExecuteMsg { LimitOrder { market_id: u64, price: Decimal } }",
    );
    assert!(out.contains(
        "\tfn limit_order(app: &mut App, market_id : u64 , price : Decimal , funds: Vec<Coin>);\n"
    ));
    assert!(out.contains("let msg = LimitOrder {market_id , price ,};"));
    assert!(out.contains(
        "\tfn limit_order(app: &mut App, contract: &Addr, caller: &Addr, market_id : u64 , price : Decimal , funds: Vec<Coin>){\n"
    ));
}

#[test]
fn scenario_b_get_admin() {
    let out = generate("pub enum QueryMsg { GetAdmin {} }");
    assert!(out.contains("\tfn get_admin(app: &App, ) -> GetAdminResponse;\n"));
    let unit = generate("pub enum QueryMsg { GetAdmin }");
    assert_eq!(out, unit);
}

#[test]
fn scenario_c_positional_command_skipped() {
    let out = generate("pub enum ExecuteMsg { Foo(u64) }");
    assert!(!out.contains("foo"));
    assert!(!out.contains("Foo"));
    assert_eq!(out, format!("{}{}}}", HEADER, MIDDLE));
}

#[test]
fn scenario_d_no_target_enums() {
    let out = generate("pub struct State { count: u64 }\npub enum Other { A { x: u8 } }\n");
    assert_eq!(
        out,
        "pub trait RobotCodeGenRobot {\n}\n\nimpl RobotCodeGenRobot for Robot {\n}"
    );
}

#[test]
fn empty_source_gives_empty_blocks() {
    assert_eq!(generate(""), format!("{}{}}}", HEADER, MIDDLE));
}

#[test]
fn whole_document() {
    let source = "
        use cosmwasm_std::{Addr, Decimal};

        pub enum ExecuteMsg {
            LimitOrder { market_id: u64, price: Decimal },
            MarketOrder { market_id: u64 },
        }

        pub enum QueryMsg {
            GetAdmin {},
            GetUserBids { user_address: Addr, target_market: Option<u64> },
        }
    ";
    let expected = String::new()
        + HEADER
        + "\tfn limit_order(app: &mut App, market_id : u64 , price : Decimal , funds: Vec<Coin>);\n"
        + "\tfn market_order(app: &mut App, market_id : u64 , funds: Vec<Coin>);\n"
        + "\tfn get_admin(app: &App, ) -> GetAdminResponse;\n"
        + "\tfn get_user_bids(app: &App, user_address : Addr , target_market : Option < u64 > ,) -> GetUserBidsResponse;\n"
        + MIDDLE
        + "\tfn limit_order(app: &mut App, contract: &Addr, caller: &Addr, market_id : u64 , price : Decimal , funds: Vec<Coin>){\n"
        + "\t\tlet msg = LimitOrder {market_id , price ,};\n"
        + "\t\tapp.execute_contract(caller.to_owned(), contract.to_owned(), &msg, &funds).unwrap();\n"
        + "\t}\n"
        + "\tfn market_order(app: &mut App, contract: &Addr, caller: &Addr, market_id : u64 , funds: Vec<Coin>){\n"
        + "\t\tlet msg = MarketOrder {market_id ,};\n"
        + "\t\tapp.execute_contract(caller.to_owned(), contract.to_owned(), &msg, &funds).unwrap();\n"
        + "\t}\n"
        + "\tfn get_admin(app: &App, contract: &Addr, ) -> GetAdminResponse{\n"
        + "\t\tlet msg = GetAdmin {};\n"
        + "\t\treturn app.wrap().query_wasm_smart(contract.to_owned(), &msg).unwrap();\n"
        + "\t}\n"
        + "\tfn get_user_bids(app: &App, contract: &Addr, user_address : Addr , target_market : Option < u64 > ,) -> GetUserBidsResponse{\n"
        + "\t\tlet msg = GetUserBids {user_address , target_market ,};\n"
        + "\t\treturn app.wrap().query_wasm_smart(contract.to_owned(), &msg).unwrap();\n"
        + "\t}\n"
        + "}";
    assert_eq!(generate(source), expected);
}

#[test]
fn commands_precede_queries_whatever_the_declaration_order() {
    let queries_first = generate(
        "pub enum QueryMsg { GetAdmin }\npub enum ExecuteMsg { Ping { n: u8 } }",
    );
    let commands_first = generate(
        "pub enum ExecuteMsg { Ping { n: u8 } }\npub enum QueryMsg { GetAdmin }",
    );
    assert_eq!(queries_first, commands_first);
    let ping_def = queries_first.find("\tfn ping(app: &mut App, n : u8 , funds").unwrap();
    let admin_def = queries_first.find("\tfn get_admin(app: &App, )").unwrap();
    assert!(ping_def < admin_def);
    let ping_impl = queries_first.find("\tfn ping(app: &mut App, contract").unwrap();
    let admin_impl = queries_first.find("\tfn get_admin(app: &App, contract").unwrap();
    assert!(admin_def < ping_impl);
    assert!(ping_impl < admin_impl);
}

#[test]
fn positional_query_fields_are_named_by_position() {
    let out = generate("pub enum QueryMsg { Pair(u64, String) }");
    assert!(out.contains("\tfn pair(app: &App, arg0 : u64 , arg1 : String ,) -> PairResponse;\n"));
    assert!(out.contains("let msg = Pair {0 : arg0 , 1 : arg1 ,};"));
}

#[test]
fn named_command_beside_skipped_one() {
    let out = generate("pub enum ExecuteMsg { Foo(u64), Bar { x: u8 }, Unit }");
    assert!(!out.contains("foo"));
    assert!(out.contains("\tfn bar(app: &mut App, x : u8 , funds: Vec<Coin>);\n"));
    assert!(out.contains("\tfn unit(app: &mut App,  funds: Vec<Coin>);\n"));
    assert!(out.contains("let msg = Unit {};"));
}

#[test]
fn nested_enums_are_not_read() {
    let out = generate("mod inner { pub enum ExecuteMsg { Ping { n: u8 } } }");
    assert_eq!(out, format!("{}{}}}", HEADER, MIDDLE));
}

#[test]
fn interface_named_after_given_crate_name() {
    let out = render_robot_code("pub enum QueryMsg { GetAdmin }", Some("order_book".to_string()));
    let text = match out {
        Ok(text) => text,
        Err(_) => panic!("the source parses"),
    };
    assert!(text.starts_with("pub trait OrderBookRobot {\n"));
    assert!(text.contains("impl OrderBookRobot for Robot {\n"));
}

#[test]
fn unparsable_source_is_an_error() {
    let out = render_robot_code("pub enum ExecuteMsg {", None);
    match out {
        Err(GenerateError::Parse(message)) => assert!(!message.is_empty()),
        Ok(_) => panic!("an unclosed enum does not parse"),
    }
}

#[test]
fn order_irrelevant_among_other_declarations() {
    let a = generate(
        "pub struct S;\npub enum QueryMsg { GetAdmin }\npub enum Other { X }\npub enum ExecuteMsg { Ping { n: u8 } }",
    );
    let b = generate(
        "pub enum ExecuteMsg { Ping { n: u8 } }\npub enum Other { X }\npub enum QueryMsg { GetAdmin }\npub struct S;",
    );
    assert_eq!(a, b);
}

#[test]
fn each_kept_command_appears_once() {
    let out = generate("pub enum ExecuteMsg { Foo(u64), Ping { n: u8 }, Pong { m: u16 } }");
    assert_eq!(out.matches("\tfn ping(app: &mut App, n : u8 , funds: Vec<Coin>);\n").count(), 1);
    assert_eq!(out.matches("let msg = Ping {n ,};").count(), 1);
    assert_eq!(out.matches("funds: Vec<Coin>);\n").count(), 2);
    assert_eq!(out.matches("&funds).unwrap();").count(), 2);
    assert!(!out.contains("Foo"));
}
