//! Administration: configuration, routes and withdrawal of the contract's buffer.

use crate::error::{custom_error, is_custom_error, ContractError};
use crate::msg::{fee_recipient_address, FeeRecipient};
use crate::state::{route_key, route_key_spec};
use crate::types::{Coin, Config, MarketId, SwapRoute};
use vstd::prelude::*;

verus! {

/// A key-value attribute of an event.
#[derive(Debug)]
pub struct Attribute {
    pub key: String,
    pub value: String,
}

/// A transfer of coins from the contract to an address.
#[derive(Debug)]
pub struct BankSend {
    pub to_address: String,
    pub amount: Vec<Coin>,
}

/// The base and quote denominations of a spot market.
#[derive(Debug)]
pub struct MarketDenoms {
    pub quote_denom: String,
    pub base_denom: String,
}

/// The configuration stored at instantiation: the given admin, and the fee
/// recipient resolved against the contract's own address.
pub fn save_config(contract_address: String, admin: String, fee_recipient: FeeRecipient) -> (r:
    Result<Config, ContractError>)
    ensures
        r matches Ok(c) && c.admin@ == admin@ && c.fee_recipient@ == fee_recipient_address(
            fee_recipient,
            contract_address@,
        ),
{
    let fee_recipient = fee_recipient.into_address(contract_address);
    let config = Config { fee_recipient, admin };
    let checked = config.copy();
    match checked.validate() {
        Ok(()) => Ok(config),
        Err(e) => Err(e),
    }
}

/// Succeeds exactly when the sender is the configured admin.
pub fn verify_sender_is_admin(config: &Config, sender: &str) -> (r: Result<(), ContractError>)
    ensures
        r is Ok <==> config.admin@ == sender@,
        r is Err ==> r matches Err(ContractError::Unauthorized {  }),
{
    if config.admin == sender.to_owned() {
        Ok(())
    } else {
        Err(ContractError::Unauthorized {  })
    }
}

/// The configuration after an update by `sender`, and the attributes of the
/// `config_updated` event: the new admin and the new fee recipient, for those given.
pub fn update_config(
    config: Config,
    contract_address: String,
    sender: &str,
    admin: Option<String>,
    fee_recipient: Option<FeeRecipient>,
) -> (r: Result<(Config, Vec<Attribute>), ContractError>)
    ensures
        r is Ok <==> config.admin@ == sender@,
        r is Err ==> r matches Err(ContractError::Unauthorized {  }),
        r matches Ok((c, attrs)) ==> {
            &&& c.admin@ == (match admin {
                Some(a) => a@,
                None => config.admin@,
            })
            &&& c.fee_recipient@ == (match fee_recipient {
                Some(f) => fee_recipient_address(f, contract_address@),
                None => config.fee_recipient@,
            })
            &&& attrs@.len() == (if admin is Some { 1int } else { 0 }) + (if fee_recipient is Some {
                1int
            } else {
                0
            })
            &&& admin is Some ==> attrs@[0].key@ == "admin"@ && attrs@[0].value@ == c.admin@
            &&& fee_recipient is Some ==> attrs@.last().key@ == "fee_recipient"@
                && attrs@.last().value@ == c.fee_recipient@
        },
{
    match verify_sender_is_admin(&config, sender) {
        Ok(()) => {},
        Err(e) => return Err(e),
    }
    let mut config = config;
    let mut attrs: Vec<Attribute> = Vec::new();
    match admin {
        Some(new_admin) => {
            config.admin = new_admin.clone();
            attrs.push(Attribute { key: "admin".to_owned(), value: new_admin });
        },
        None => {},
    }
    match fee_recipient {
        Some(f) => {
            config.fee_recipient = f.into_address(contract_address);
            attrs.push(
                Attribute { key: "fee_recipient".to_owned(), value: config.fee_recipient.clone() },
            );
        },
        None => {},
    }
    Ok((config, attrs))
}

/// The transfer of the given coins to the target address, allowed to the admin only.
pub fn withdraw_support_funds(config: &Config, sender: &str, coins: Vec<Coin>, target_address: String) -> (r:
    Result<BankSend, ContractError>)
    ensures
        r is Ok <==> config.admin@ == sender@,
        r is Err ==> r matches Err(ContractError::Unauthorized {  }),
        r matches Ok(send) ==> send.to_address@ == target_address@ && send.amount@ == coins@,
{
    match verify_sender_is_admin(config, sender) {
        Ok(()) => {},
        Err(e) => return Err(e),
    }
    Ok(BankSend { to_address: target_address, amount: coins })
}

/// Some market occurs twice in the sequence.
pub open spec fn has_duplicates(ids: Seq<MarketId>) -> bool {
    exists|i: int, j: int| 0 <= i < j < ids.len() && #[trigger] ids[i]@ == #[trigger] ids[j]@
}

/// Whether some market occurs twice among the ids.
fn contains_duplicates(ids: &Vec<MarketId>) -> (r: bool)
    ensures
        r == has_duplicates(ids@),
{
    let mut j: usize = 0;
    while j < ids.len()
        invariant
            j <= ids.len(),
            forall|a: int, b: int| 0 <= a < b < j ==> ids@[a]@ != ids@[b]@,
        decreases ids.len() - j,
    {
        let mut i: usize = 0;
        while i < j
            invariant
                i <= j < ids.len(),
                forall|a: int| 0 <= a < i ==> ids@[a]@ != ids@[j as int]@,
            decreases j - i,
        {
            if ids[i].same_as(&ids[j]) {
                assert(ids@[i as int]@ == ids@[j as int]@);
                return true;
            }
            i = i + 1;
        }
        j = j + 1;
    }
    false
}

/// The route that `sender` asks to store, after the checks that need no market data:
/// the sender is the admin, the denominations differ, there is at least one market,
/// and no market occurs twice.
pub fn set_route(
    config: &Config,
    sender: &str,
    source_denom: String,
    target_denom: String,
    route: Vec<MarketId>,
) -> (r: Result<SwapRoute, ContractError>)
    ensures
        config.admin@ != sender@ ==> r matches Err(ContractError::Unauthorized {  }),
        config.admin@ == sender@ && source_denom@ == target_denom@ ==> is_custom_error(
            r->Err_0,
            "Cannot set a route with the same denom being source and target"@,
        ) && r is Err,
        config.admin@ == sender@ && source_denom@ != target_denom@ && route@.len() == 0
            ==> r is Err && is_custom_error(r->Err_0, "Route must have at least one step"@),
        config.admin@ == sender@ && source_denom@ != target_denom@ && route@.len() > 0
            && has_duplicates(route@) ==> r is Err && is_custom_error(
            r->Err_0,
            "Route cannot have duplicate steps!"@,
        ),
        r is Ok <==> config.admin@ == sender@ && source_denom@ != target_denom@ && route@.len() > 0
            && !has_duplicates(route@),
        r matches Ok(stored) ==> stored.steps@ == route@ && stored.source_denom@ == source_denom@
            && stored.target_denom@ == target_denom@,
{
    match verify_sender_is_admin(config, sender) {
        Ok(()) => {},
        Err(e) => return Err(e),
    }
    if source_denom == target_denom {
        return Err(custom_error("Cannot set a route with the same denom being source and target"));
    }
    if route.len() == 0 {
        return Err(custom_error("Route must have at least one step"));
    }
    if contains_duplicates(&route) {
        return Err(custom_error("Route cannot have duplicate steps!"));
    }
    Ok(SwapRoute { steps: route, source_denom, target_denom })
}

/// The index of the first market that was not found, if any.
pub open spec fn first_missing(markets: Seq<Option<MarketDenoms>>) -> Option<int> {
    if exists|i: int| 0 <= i < markets.len() && markets[i] is None {
        Some(choose|i: int| 0 <= i < markets.len() && markets[i] is None && (forall|k: int| 0 <= k < i ==> markets[k] is Some))
    } else {
        None
    }
}

/// The denomination is one of the market's two denominations.
pub open spec fn market_has_denom(m: MarketDenoms, denom: Seq<char>) -> bool {
    m.quote_denom@ == denom || m.base_denom@ == denom
}

/// Checks a route against the markets found for its steps (in order; `None` where a
/// market was not found): every market exists, the source denomination is traded in
/// the first market and the target denomination in the last.
pub fn verify_route_exists(route: &SwapRoute, markets: &Vec<Option<MarketDenoms>>) -> (r: Result<
    (),
    ContractError,
>)
    requires
        markets@.len() == route.steps@.len(),
    ensures
        first_missing(markets@) matches Some(i) ==> r is Err && is_custom_error(
            r->Err_0,
            "Market "@ + route.steps@[i]@ + " not found"@,
        ),
        first_missing(markets@) is None && markets@.len() == 0 ==> r is Err && is_custom_error(
            r->Err_0,
            "No market denoms found"@,
        ),
        first_missing(markets@) is None && markets@.len() > 0 && !market_has_denom(
            markets@[0].unwrap(),
            route.source_denom@,
        ) ==> r is Err && is_custom_error(r->Err_0, "Source denom not found in first market"@),
        first_missing(markets@) is None && markets@.len() > 0 && market_has_denom(
            markets@[0].unwrap(),
            route.source_denom@,
        ) && !market_has_denom(markets@.last().unwrap(), route.target_denom@) ==> r is Err
            && is_custom_error(r->Err_0, "Target denom not found in last market"@),
        r is Ok <==> first_missing(markets@) is None && markets@.len() > 0 && market_has_denom(
            markets@[0].unwrap(),
            route.source_denom@,
        ) && market_has_denom(markets@.last().unwrap(), route.target_denom@),
{
    let mut i: usize = 0;
    while i < markets.len()
        invariant
            i <= markets.len() == route.steps@.len(),
            forall|k: int| 0 <= k < i ==> markets@[k] is Some,
        decreases markets.len() - i,
    {
        match &markets[i] {
            Some(_) => {},
            None => {
                let msg = "Market ".to_owned().concat(route.steps[i].as_str()).concat(" not found");
                proof {
                    let w = choose|j: int|
                        0 <= j < markets@.len() && markets@[j] is None && (forall|k: int|
                            0 <= k < j ==> markets@[k] is Some);
                    assert(0 <= i < markets@.len() && markets@[i as int] is None && (forall|k: int|
                        0 <= k < i ==> markets@[k] is Some));
                    if w < i {
                    } else if w > i {
                        assert(markets@[i as int] is Some);
                    }
                    assert(w == i);
                }
                return Err(ContractError::CustomError { val: msg });
            },
        }
        i = i + 1;
    }
    if markets.len() == 0 {
        return Err(custom_error("No market denoms found"));
    }
    let first = markets[0].as_ref().unwrap();
    let last = markets[markets.len() - 1].as_ref().unwrap();
    if !(first.quote_denom == route.source_denom || first.base_denom == route.source_denom) {
        return Err(custom_error("Source denom not found in first market"));
    }
    if !(last.quote_denom == route.target_denom || last.base_denom == route.target_denom) {
        return Err(custom_error("Target denom not found in last market"));
    }
    Ok(())
}

/// The key of the route to remove, when the admin asks for it.
pub fn delete_route(config: &Config, sender: &str, source_denom: &str, target_denom: &str) -> (r:
    Result<(String, String), ContractError>)
    ensures
        r is Ok <==> config.admin@ == sender@,
        r is Err ==> r matches Err(ContractError::Unauthorized {  }),
        r matches Ok(key) ==> (key.0@, key.1@) == route_key_spec(source_denom@, target_denom@),
{
    match verify_sender_is_admin(config, sender) {
        Ok(()) => {},
        Err(e) => return Err(e),
    }
    Ok(route_key(source_denom, target_denom))
}

} // verus!
