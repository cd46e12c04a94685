//! The item cache: the full item list is read from the cache file when it
//! can be; otherwise it is fetched from the API and written to the cache
//! before it is used. The I/O is done by the caller, which reports each
//! outcome here and performs the action it gets back.
use vstd::prelude::*;
use crate::search::Gw2Item;

verus! {

/// What the caller does next.
#[derive(Debug)]
pub enum CacheAction {
    /// Fetch all items from the API.
    FetchFromApi,
    /// Write these items to the cache file.
    SaveToFile(Vec<Gw2Item>),
    /// Stop with this result.
    Finish(Result<Vec<Gw2Item>, String>),
}

/// After reading the cache file: items that were read are the answer; a
/// file that could not be read or parsed sends the caller to the API.
pub fn after_cache_load(loaded: Result<Vec<Gw2Item>, String>) -> (r: CacheAction)
    ensures
        match loaded {
            Ok(items) => r == CacheAction::Finish(Ok(items)),
            Err(_) => r == CacheAction::FetchFromApi,
        },
{
    match loaded {
        Ok(items) => CacheAction::Finish(Ok(items)),
        Err(_) => CacheAction::FetchFromApi,
    }
}

/// After fetching from the API: fetched items go to the cache file; a
/// failed fetch ends with its error.
pub fn after_fetch(fetched: Result<Vec<Gw2Item>, String>) -> (r: CacheAction)
    ensures
        match fetched {
            Ok(items) => r == CacheAction::SaveToFile(items),
            Err(e) => r == CacheAction::Finish(Err(e)),
        },
{
    match fetched {
        Ok(items) => CacheAction::SaveToFile(items),
        Err(e) => CacheAction::Finish(Err(e)),
    }
}

/// After writing the cache file: the saved items are the answer; a failed
/// write ends with its error.
pub fn after_save(saved: Result<(), String>, items: Vec<Gw2Item>) -> (r: CacheAction)
    ensures
        match saved {
            Ok(_) => r == CacheAction::Finish(Ok(items)),
            Err(e) => r == CacheAction::Finish(Err(e)),
        },
{
    match saved {
        Ok(_) => CacheAction::Finish(Ok(items)),
        Err(e) => CacheAction::Finish(Err(e)),
    }
}

} // verus!
