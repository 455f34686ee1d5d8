//! The contract run inside a simulated chain: instantiation, execution and
//! queries go through the chain's router, and the bank carries out transfers.

use cosmwasm_std::coin;
use cosmwasm_std::coins;
use cosmwasm_std::to_json_binary;
use cosmwasm_std::Addr;
use cosmwasm_std::BankMsg;
use cosmwasm_std::Binary;
use cosmwasm_std::Deps;
use cosmwasm_std::DepsMut;
use cosmwasm_std::Empty;
use cosmwasm_std::Env;
use cosmwasm_std::Order;
use cosmwasm_std::Record;
use cosmwasm_std::StdError;
use cosmwasm_std::Storage;
use cw_multi_test::App;
use cw_multi_test::Contract;
use cw_multi_test::ContractWrapper;
use cw_multi_test::Executor;

use kv_store_contract::msg::Coin;
use kv_store_contract::msg::ConstructorMsg;
use kv_store_contract::msg::ExecuteMsg;
use kv_store_contract::msg::MessageInfo;
use kv_store_contract::msg::QueryMsg;
use kv_store_contract::msg::ValueResp;
use kv_store_contract::response::Response;
use kv_store_contract::state::Ledger;
use kv_store_contract::ContractError;

/// The chain's storage for a call that may write.
struct Writable<'a>(&'a mut dyn Storage);

impl Storage for Writable<'_> {
    fn get(&self, key: &[u8]) -> Option<Vec<u8>> {
        self.0.get(key)
    }

    fn range<'a>(
        &'a self,
        start: Option<&[u8]>,
        end: Option<&[u8]>,
        order: Order,
    ) -> Box<dyn Iterator<Item = Record> + 'a> {
        self.0.range(start, end, order)
    }

    fn set(&mut self, key: &[u8], value: &[u8]) {
        self.0.set(key, value)
    }

    fn remove(&mut self, key: &[u8]) {
        self.0.remove(key)
    }
}

/// The chain's storage for a call that only reads.
struct ReadOnly<'a>(&'a dyn Storage);

impl Storage for ReadOnly<'_> {
    fn get(&self, key: &[u8]) -> Option<Vec<u8>> {
        self.0.get(key)
    }

    fn range<'a>(
        &'a self,
        start: Option<&[u8]>,
        end: Option<&[u8]>,
        order: Order,
    ) -> Box<dyn Iterator<Item = Record> + 'a> {
        self.0.range(start, end, order)
    }

    fn set(&mut self, _key: &[u8], _value: &[u8]) {
        unreachable!("a query does not write")
    }

    fn remove(&mut self, _key: &[u8]) {
        unreachable!("a query does not write")
    }
}

/// A refusal in the form the chain wants: something it can print.
#[derive(Debug)]
struct Refusal(ContractError);

impl std::fmt::Display for Refusal {
    fn fmt(&self, f: &mut std::fmt::Formatter<'_>) -> std::fmt::Result {
        f.write_str(&format!("{:?}", self.0))
    }
}

impl std::error::Error for Refusal {}

fn to_coins(coins: Vec<cosmwasm_std::Coin>) -> Vec<Coin> {
    coins
        .into_iter()
        .map(|c| Coin::new(c.amount.u128(), c.denom))
        .collect()
}

fn to_info(info: cosmwasm_std::MessageInfo) -> MessageInfo {
    MessageInfo {
        sender: info.sender.into_string(),
        funds: to_coins(info.funds),
    }
}

fn to_host_response(response: Response) -> cosmwasm_std::Response {
    let mut out = cosmwasm_std::Response::new();
    for attribute in response.attributes {
        out = out.add_attribute(attribute.key, attribute.value);
    }
    for transfer in response.messages {
        out = out.add_message(BankMsg::Send {
            to_address: transfer.to_address,
            amount: transfer
                .amount
                .into_iter()
                .map(|c| coin(c.amount, c.denom))
                .collect(),
        });
    }
    out
}

/// A command as it travels over the wire in these tests: its name and its
/// arguments.
type Wire = (String, Vec<String>);

fn to_wire(msg: &ExecuteMsg) -> Wire {
    match msg {
        ExecuteMsg::SetValue { key, value } => {
            ("set_value".to_string(), vec![key.clone(), value.clone()])
        }
        ExecuteMsg::UpdateValue { key, value } => {
            ("update_value".to_string(), vec![key.clone(), value.clone()])
        }
        ExecuteMsg::DeleteValue { key } => ("delete_value".to_string(), vec![key.clone()]),
        ExecuteMsg::Withdraw {} => ("withdraw".to_string(), vec![]),
    }
}

fn from_wire(wire: Wire) -> ExecuteMsg {
    let (name, args) = wire;
    match (name.as_str(), args.as_slice()) {
        ("set_value", [key, value]) => ExecuteMsg::SetValue {
            key: key.clone(),
            value: value.clone(),
        },
        ("update_value", [key, value]) => ExecuteMsg::UpdateValue {
            key: key.clone(),
            value: value.clone(),
        },
        ("delete_value", [key]) => ExecuteMsg::DeleteValue { key: key.clone() },
        ("withdraw", []) => ExecuteMsg::Withdraw {},
        _ => panic!("unknown command"),
    }
}

fn instantiate(
    deps: DepsMut,
    _env: Env,
    info: cosmwasm_std::MessageInfo,
    base_fee: cosmwasm_std::Coin,
) -> Result<cosmwasm_std::Response, StdError> {
    let mut storage = Writable(deps.storage);
    let mut ledger = Ledger::new(&mut storage);
    let msg = ConstructorMsg {
        base_fee: Coin::new(base_fee.amount.u128(), base_fee.denom),
    };
    kv_store_contract::instantiate(&mut ledger, to_info(info), msg).map(to_host_response)
}

fn execute(
    deps: DepsMut,
    env: Env,
    info: cosmwasm_std::MessageInfo,
    wire: Wire,
) -> Result<cosmwasm_std::Response, Refusal> {
    let msg = from_wire(wire);
    let balance = if msg.needs_balance() {
        deps.querier
            .query_all_balances(&env.contract.address)
            .map(to_coins)
    } else {
        Ok(vec![])
    };
    let mut storage = Writable(deps.storage);
    let mut ledger = Ledger::new(&mut storage);
    kv_store_contract::execute(&mut ledger, to_info(info), msg, balance)
        .map(to_host_response)
        .map_err(Refusal)
}

fn query(deps: Deps, _env: Env, key: String) -> Result<Binary, StdError> {
    let mut storage = ReadOnly(deps.storage);
    let ledger = Ledger::new(&mut storage);
    let resp = kv_store_contract::query(&ledger, QueryMsg::Value { key })?;
    to_json_binary(&(resp.key, resp.value))
}

fn lookup(app: &App, contract_addr: Addr, msg: &QueryMsg) -> ValueResp {
    let QueryMsg::Value { key } = msg;
    let (key, value): (String, Option<String>) =
        app.wrap().query_wasm_smart(contract_addr, key).unwrap();
    ValueResp { key, value }
}

fn store_contract() -> Box<dyn Contract<Empty>> {
    let contract = ContractWrapper::new(execute, instantiate, query);
    Box::new(contract)
}

fn get_app() -> App {
    let sender = Addr::unchecked("sender");

    App::new(|router, _api, storage| {
        router
            .bank
            .init_balance(storage, &sender, coins(20, "sei"))
            .unwrap()
    })
}

#[test]
fn test_get_value() {
    let mut app = get_app();

    let contract_id = app.store_code(store_contract());

    let contract_addr = app
        .instantiate_contract(
            contract_id,
            Addr::unchecked("sender"),
            &coin(2, "sei"),
            &[],
            "KV Store Contract",
            None,
        )
        .unwrap();

    let resp = lookup(
        &app,
        contract_addr,
        &QueryMsg::Value {
            key: "it works".to_string(),
        },
    );

    assert_eq!(
        resp,
        ValueResp {
            key: "it works".to_string(),
            value: None,
        }
    );
}

#[test]
fn test_set_value() {
    let mut app = get_app();

    let contract_id = app.store_code(store_contract());

    let contract_addr = app
        .instantiate_contract(
            contract_id,
            Addr::unchecked("sender"),
            &coin(2, "sei"),
            &[],
            "KV Store Contract",
            None,
        )
        .unwrap();

    app.execute_contract(
        Addr::unchecked("sender"),
        contract_addr.clone(),
        &to_wire(&ExecuteMsg::SetValue {
            key: "it works".to_string(),
            value: "first".to_string(),
        }),
        &coins(2, "sei"),
    )
    .unwrap();

    let resp = lookup(
        &app,
        contract_addr,
        &QueryMsg::Value {
            key: "it works".to_string(),
        },
    );

    assert_eq!(
        resp,
        ValueResp {
            key: "it works".to_string(),
            value: Some("first".to_string()),
        }
    );
}

#[test]
fn test_update_value() {
    let mut app = get_app();

    let contract_id = app.store_code(store_contract());

    let contract_addr = app
        .instantiate_contract(
            contract_id,
            Addr::unchecked("sender"),
            &coin(2, "sei"),
            &[],
            "KV Store Contract",
            None,
        )
        .unwrap();

    app.execute_contract(
        Addr::unchecked("sender"),
        contract_addr.clone(),
        &to_wire(&ExecuteMsg::SetValue {
            key: "it works".to_string(),
            value: "first".to_string(),
        }),
        &coins(2, "sei"),
    )
    .unwrap();

    app.execute_contract(
        Addr::unchecked("sender"),
        contract_addr.clone(),
        &to_wire(&ExecuteMsg::UpdateValue {
            key: "it works".to_string(),
            value: "second".to_string(),
        }),
        &[],
    )
    .unwrap();

    let resp = lookup(
        &app,
        contract_addr,
        &QueryMsg::Value {
            key: "it works".to_string(),
        },
    );

    assert_eq!(
        resp,
        ValueResp {
            key: "it works".to_string(),
            value: Some("second".to_string()),
        }
    );
}

#[test]
fn test_delete_value() {
    let mut app = get_app();

    let contract_id = app.store_code(store_contract());

    let contract_addr = app
        .instantiate_contract(
            contract_id,
            Addr::unchecked("sender"),
            &coin(2, "sei"),
            &[],
            "KV Store Contract",
            None,
        )
        .unwrap();

    app.execute_contract(
        Addr::unchecked("sender"),
        contract_addr.clone(),
        &to_wire(&ExecuteMsg::SetValue {
            key: "it works".to_string(),
            value: "first".to_string(),
        }),
        &coins(2, "sei"),
    )
    .unwrap();

    app.execute_contract(
        Addr::unchecked("sender"),
        contract_addr.clone(),
        &to_wire(&ExecuteMsg::DeleteValue {
            key: "it works".to_string(),
        }),
        &[],
    )
    .unwrap();

    let resp = lookup(
        &app,
        contract_addr,
        &QueryMsg::Value {
            key: "it works".to_string(),
        },
    );

    assert_eq!(
        resp,
        ValueResp {
            key: "it works".to_string(),
            value: None,
        }
    );
}

#[test]
fn test_withdraw() {
    let mut app = get_app();

    let contract_id = app.store_code(store_contract());

    let contract_addr = app
        .instantiate_contract(
            contract_id,
            Addr::unchecked("sender"),
            &coin(2, "sei"),
            &coins(10, "sei"),
            "KV Store Contract",
            None,
        )
        .unwrap();

    app.execute_contract(
        Addr::unchecked("sender"),
        contract_addr.clone(),
        &to_wire(&ExecuteMsg::Withdraw {}),
        &[],
    )
    .unwrap();

    assert_eq!(
        app.wrap()
            .query_all_balances(Addr::unchecked("sender"),)
            .unwrap(),
        coins(20, "sei")
    );
    assert_eq!(
        app.wrap()
            .query_all_balances(Addr::unchecked("alice"),)
            .unwrap(),
        vec![]
    );
    assert_eq!(
        app.wrap().query_all_balances(contract_addr).unwrap(),
        vec![]
    );
}

#[test]
fn test_unauthorized_withdraw() {
    let mut app = get_app();

    let contract_id = app.store_code(store_contract());

    let contract_addr = app
        .instantiate_contract(
            contract_id,
            Addr::unchecked("sender"),
            &coin(2, "sei"),
            &[],
            "KV Store Contract",
            None,
        )
        .unwrap();

    let err = app
        .execute_contract(
            Addr::unchecked("attacker"),
            contract_addr,
            &to_wire(&ExecuteMsg::Withdraw {}),
            &[],
        )
        .unwrap_err();

    let refusal: Refusal = err.downcast().unwrap();
    assert_eq!(
        ContractError::Unauthorized {
            owner: Addr::unchecked("sender").into()
        },
        refusal.0
    );
}

#[test]
fn test_fee_too_low_is_refused_and_rolled_back() {
    let mut app = get_app();

    let contract_id = app.store_code(store_contract());

    let contract_addr = app
        .instantiate_contract(
            contract_id,
            Addr::unchecked("sender"),
            &coin(2, "sei"),
            &[],
            "KV Store Contract",
            None,
        )
        .unwrap();

    let err = app
        .execute_contract(
            Addr::unchecked("sender"),
            contract_addr.clone(),
            &to_wire(&ExecuteMsg::SetValue {
                key: "it works".to_string(),
                value: "first".to_string(),
            }),
            &coins(1, "sei"),
        )
        .unwrap_err();

    let refusal: Refusal = err.downcast().unwrap();
    assert_eq!(ContractError::StorageFeeTooLow { amount: 2 }, refusal.0);

    let resp = lookup(
        &app,
        contract_addr.clone(),
        &QueryMsg::Value {
            key: "it works".to_string(),
        },
    );
    assert_eq!(resp.value, None);
    assert_eq!(
        app.wrap()
            .query_all_balances(Addr::unchecked("sender"))
            .unwrap(),
        coins(20, "sei")
    );
    assert_eq!(
        app.wrap().query_all_balances(contract_addr).unwrap(),
        vec![]
    );
}

#[test]
fn test_end_to_end() {
    let owner = Addr::unchecked("owner");
    let user = Addr::unchecked("user");
    let mut app = App::new(|router, _api, storage| {
        router
            .bank
            .init_balance(storage, &Addr::unchecked("owner"), coins(8, "sei"))
            .unwrap();
        router
            .bank
            .init_balance(storage, &Addr::unchecked("user"), coins(5, "sei"))
            .unwrap();
    });

    let contract_id = app.store_code(store_contract());
    let contract_addr = app
        .instantiate_contract(
            contract_id,
            owner.clone(),
            &coin(2, "sei"),
            &coins(8, "sei"),
            "KV Store Contract",
            None,
        )
        .unwrap();
    let query = QueryMsg::Value {
        key: "x".to_string(),
    };

    app.execute_contract(
        user.clone(),
        contract_addr.clone(),
        &to_wire(&ExecuteMsg::SetValue {
            key: "x".to_string(),
            value: "first".to_string(),
        }),
        &coins(2, "sei"),
    )
    .unwrap();
    assert_eq!(
        lookup(&app, contract_addr.clone(), &query).value,
        Some("first".to_string())
    );

    app.execute_contract(
        user.clone(),
        contract_addr.clone(),
        &to_wire(&ExecuteMsg::UpdateValue {
            key: "x".to_string(),
            value: "second".to_string(),
        }),
        &[],
    )
    .unwrap();
    assert_eq!(
        lookup(&app, contract_addr.clone(), &query).value,
        Some("second".to_string())
    );

    app.execute_contract(
        user.clone(),
        contract_addr.clone(),
        &to_wire(&ExecuteMsg::DeleteValue {
            key: "x".to_string(),
        }),
        &[],
    )
    .unwrap();
    assert_eq!(lookup(&app, contract_addr.clone(), &query).value, None);

    assert_eq!(
        app.wrap()
            .query_all_balances(contract_addr.clone())
            .unwrap(),
        coins(10, "sei")
    );
    assert_eq!(app.wrap().query_all_balances(owner.clone()).unwrap(), vec![]);

    app.execute_contract(
        owner.clone(),
        contract_addr.clone(),
        &to_wire(&ExecuteMsg::Withdraw {}),
        &[],
    )
    .unwrap();
    assert_eq!(
        app.wrap().query_all_balances(owner).unwrap(),
        coins(10, "sei")
    );
    assert_eq!(
        app.wrap().query_all_balances(contract_addr).unwrap(),
        vec![]
    );
    assert_eq!(app.wrap().query_all_balances(user).unwrap(), coins(3, "sei"));
}
