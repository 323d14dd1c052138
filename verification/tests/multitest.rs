use counting_contract::coin::{coin, coins, Coin};
use counting_contract::error::ContractError;
use counting_contract::msg::{ExecMsg, InstantiateMsg, MessageInfo, QueryMsg, ValueResp};
use counting_contract::response::{CosmosMsg, Response};
use counting_contract::state::{State, Store};
use counting_contract::{execute, instantiate, migrate, query};

const ATOM: &str = "atom";
const CONTRACT: &str = "contract0";

/// The balances that the bank keeps, by address.
struct Bank {
    accounts: Vec<(String, Vec<Coin>)>,
}

impl Bank {
    fn new() -> Self {
        Bank { accounts: Vec::new() }
    }

    fn with_funds(sender: &str, amount: u128) -> Self {
        let mut bank = Bank::new();
        bank.deposit(sender, &coins(amount, ATOM));
        bank
    }

    fn query_all_balances(&self, addr: &str) -> Vec<Coin> {
        self.accounts
            .iter()
            .find(|(owner, _)| owner == addr)
            .map(|(_, held)| held.iter().filter(|c| c.amount > 0).cloned().collect())
            .unwrap_or_default()
    }

    fn deposit(&mut self, addr: &str, amount: &[Coin]) {
        if !self.accounts.iter().any(|(owner, _)| owner == addr) {
            self.accounts.push((addr.to_string(), Vec::new()));
        }
        let held = &mut self.accounts.iter_mut().find(|(owner, _)| owner == addr).unwrap().1;
        for c in amount {
            match held.iter_mut().find(|h| h.denom == c.denom) {
                Some(h) => h.amount += c.amount,
                None => held.push(c.clone()),
            }
        }
    }

    fn send(&mut self, from: &str, to: &str, amount: &[Coin]) {
        for c in amount {
            let held = &mut self.accounts.iter_mut().find(|(owner, _)| owner == from).unwrap().1;
            let h = held.iter_mut().find(|h| h.denom == c.denom).unwrap();
            assert!(h.amount >= c.amount);
            h.amount -= c.amount;
        }
        self.deposit(to, amount);
    }
}

/// One instance of the contract on a chain with a bank.
struct CountingContract {
    store: Store,
    addr: String,
}

impl CountingContract {
    fn instantiate(sender: Option<&str>, counter: Option<u64>, minimal_donation: Option<u128>) -> Self {
        let mut store = Store::new();
        let info = MessageInfo { sender: sender.unwrap_or("sender").to_string(), funds: vec![] };
        let msg = InstantiateMsg {
            counter: Some(counter.unwrap_or_default()),
            minimal_donation: coin(minimal_donation.unwrap_or(0), ATOM),
            parent: None,
        };
        instantiate(&mut store, info, msg).unwrap();
        CountingContract { store, addr: CONTRACT.to_string() }
    }

    fn run(&self, bank: &mut Bank, resp: Response) {
        for msg in resp.messages {
            match msg {
                CosmosMsg::Send { to_address, amount } => bank.send(&self.addr, &to_address, &amount),
                CosmosMsg::Donate { contract_addr, funds } => {
                    bank.send(&self.addr, &contract_addr, &funds)
                }
            }
        }
    }

    fn donate(&mut self, bank: &mut Bank, sender: &str, funds: &[Coin]) -> Result<(), ContractError> {
        let mut staged = self.store.clone();
        let info = MessageInfo { sender: sender.to_string(), funds: funds.to_vec() };
        if !funds.is_empty() {
            bank.send(sender, &self.addr, funds);
        }
        let balance = bank.query_all_balances(&self.addr);
        let resp = execute(&mut staged, balance, info, ExecMsg::Donate {})?;
        self.store = staged;
        self.run(bank, resp);
        Ok(())
    }

    fn withdraw(&mut self, bank: &mut Bank, sender: &str) -> Result<(), ContractError> {
        let info = MessageInfo { sender: sender.to_string(), funds: vec![] };
        let balance = bank.query_all_balances(&self.addr);
        let resp = execute(&mut self.store, balance, info, ExecMsg::Withdraw {})?;
        self.run(bank, resp);
        Ok(())
    }

    fn withdraw_to(
        &mut self,
        bank: &mut Bank,
        sender: &str,
        receiver: &str,
        funds: Option<Vec<Coin>>,
    ) -> Result<(), ContractError> {
        let funds = funds.unwrap_or_default();
        let info = MessageInfo { sender: sender.to_string(), funds: vec![] };
        let balance = bank.query_all_balances(&self.addr);
        let msg = ExecMsg::WithdrawTo { recipient: receiver.to_string(), funds: Some(funds) };
        let resp = execute(&mut self.store, balance, info, msg)?;
        self.run(bank, resp);
        Ok(())
    }

    fn query_value(&self) -> ValueResp {
        query(&self.store, QueryMsg::Value {}).unwrap()
    }

    fn query_increment(&self, number: u64) -> ValueResp {
        query(&self.store, QueryMsg::Increment { number }).unwrap()
    }

    fn migrate(&mut self) -> Result<(), ContractError> {
        migrate(&mut self.store).map(|_| ())
    }
}

#[test]
fn instantiate_with_value() {
    let contract = CountingContract::instantiate(None, Some(1234), None);

    let resp: ValueResp = contract.query_value();

    assert_eq!(resp, ValueResp { value: 1234 });
}

#[test]
fn query_value() {
    let contract = CountingContract::instantiate(None, None, None);

    let resp: ValueResp = contract.query_value();

    assert_eq!(resp, ValueResp { value: 0 });
}

#[test]
fn query_increment() {
    let contract = CountingContract::instantiate(None, None, None);

    let resp: ValueResp = contract.query_increment(5);

    assert_eq!(resp, ValueResp { value: 6 });
}

#[test]
fn donate() {
    let mut bank = Bank::new();
    let mut contract = CountingContract::instantiate(None, None, None);

    contract.donate(&mut bank, "sender", &[]).unwrap();

    let resp: ValueResp = contract.query_value();

    assert_eq!(resp, ValueResp { value: 1 });
}

#[test]
fn donate_with_funds() {
    let owner = "owner";
    let sender = "sender";

    let mut bank = Bank::with_funds(sender, 10);
    let mut contract = CountingContract::instantiate(Some(owner), None, Some(10));

    contract.donate(&mut bank, sender, &coins(10, ATOM)).unwrap();

    let resp = contract.query_value();
    assert_eq!(resp, ValueResp { value: 1 });
}

#[test]
fn withdraw() {
    let owner = "owner";
    let sender = "sender";

    let mut bank = Bank::with_funds(sender, 10);
    let mut contract = CountingContract::instantiate(Some(owner), None, Some(10));

    contract.donate(&mut bank, sender, &coins(10, ATOM)).unwrap();

    contract.withdraw(&mut bank, owner).unwrap();

    assert_eq!(bank.query_all_balances(owner), coins(10, "atom"));
    assert_eq!(bank.query_all_balances(sender), vec![]);
    assert_eq!(bank.query_all_balances(&contract.addr), vec![]);
}

#[test]
fn withdraw_to() {
    let owner = "owner";
    let sender = "sender";
    let receiver = "receiver";

    let mut bank = Bank::with_funds(sender, 10);
    let mut contract = CountingContract::instantiate(Some(owner), None, Some(10));

    contract.donate(&mut bank, sender, &coins(10, ATOM)).unwrap();

    contract.withdraw_to(&mut bank, owner, receiver, Some(coins(5, ATOM))).unwrap();

    assert_eq!(bank.query_all_balances(owner), vec![]);
    assert_eq!(bank.query_all_balances(sender), vec![]);
    assert_eq!(bank.query_all_balances(receiver), coins(5, "atom"));
    assert_eq!(bank.query_all_balances(&contract.addr), coins(5, "atom"));
}

#[test]
fn unauthorized_withdraw() {
    let owner = "owner";
    let member = "member";

    let mut bank = Bank::new();
    let mut contract = CountingContract::instantiate(Some(owner), None, Some(10));

    let err = contract.withdraw(&mut bank, member).unwrap_err();

    assert_eq!(err, ContractError::Unauthorized { owner: owner.into() });
}

#[test]
fn unauthorized_withdraw_to() {
    let owner = "owner";
    let member = "member";
    let recipient = "recipient";

    let mut bank = Bank::new();
    let mut contract = CountingContract::instantiate(Some(owner), None, Some(10));

    let err = contract.withdraw_to(&mut bank, member, recipient, Some(coins(5, ATOM))).unwrap_err();

    assert_eq!(err, ContractError::Unauthorized { owner: owner.into() });
}

#[test]
fn migration() {
    let owner = "owner";
    let sender = "sender";

    let mut bank = Bank::with_funds(sender, 10);

    // An instance as the first version keeps it: three separate records
    // and no tag, after one donation of 10 atom was counted.
    let mut store = Store::new();
    store.counter = Some(0);
    store.minimal_donation = Some(coin(10, ATOM));
    store.owner = Some(owner.to_string());
    bank.send(sender, CONTRACT, &coins(10, ATOM));
    store.counter = Some(1);
    let mut contract = CountingContract { store, addr: CONTRACT.to_string() };

    contract.migrate().unwrap();

    let resp = contract.query_value();
    assert_eq!(resp, ValueResp { value: 1 });

    let state = contract.store.state.clone().unwrap();
    assert_eq!(
        state,
        State {
            counter: 1,
            minimal_donation: coin(10, ATOM),
            owner: owner.to_string(),
            donating_parent: None,
        }
    );
}

#[test]
fn migration_same_version() {
    let owner = "owner";
    let sender = "sender";

    let mut bank = Bank::with_funds(sender, 10);
    let mut contract = CountingContract::instantiate(Some(owner), None, Some(10));

    contract.donate(&mut bank, sender, &coins(10, ATOM)).unwrap();

    contract.migrate().unwrap();

    let resp = contract.query_value();
    assert_eq!(resp, ValueResp { value: 1 });

    let state = contract.store.state.clone().unwrap();
    assert_eq!(
        state,
        State {
            counter: 1,
            minimal_donation: coin(10, ATOM),
            owner: owner.to_string(),
            donating_parent: None,
        }
    );
}
