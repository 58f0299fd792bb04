//! The collection and alias families of the dispatcher: request and
//! response shapes, and the routing of each variant to exactly one engine
//! operation.

use vstd::prelude::*;

use crate::engine::{
    collection_aliases_rel, create_alias_rel, create_collection_rel, delete_alias_rel,
    delete_collection_rel, engine_wf, get_collection_rel, list_aliases_rel, list_collections_rel,
    rename_alias_rel, update_collection_rel, CollectionsAliasesResponse, Engine, EngineV,
};
use crate::error::EngineError;
use crate::types::{ColName, CollectionInfo, CreateCollection, UpdateCollection};

verus! {

/// A collection-family request, one variant per engine operation.
#[derive(Debug, PartialEq, Eq)]
pub enum CollectionRequest {
    /// list collections
    List,
    /// get collection with given name
    Get(ColName),
    /// create collection with given info
    Create((ColName, CreateCollection)),
    /// update collection with given info
    Update((ColName, UpdateCollection)),
    /// delete collection with given name
    Delete(ColName),
}

/// An alias-family request, one variant per engine operation.
#[derive(Debug, PartialEq, Eq)]
pub enum AliasRequest {
    /// list aliases
    List,
    /// get aliases for a given collection
    Get(ColName),
    /// create alias with given collection name and alias name
    Create((ColName, String)),
    /// delete alias with alias name
    Delete(String),
    /// rename alias with old and new alias names
    Rename((String, String)),
}

/// A collection-family response, mirroring `CollectionRequest` one to one.
#[derive(Clone, Debug, PartialEq, Eq)]
pub enum CollectionResponse {
    /// list collections
    List(Vec<String>),
    /// collection info
    Get(CollectionInfo),
    /// creation status
    Create(bool),
    /// update status
    Update(bool),
    /// deletion status
    Delete(bool),
}

/// An alias-family response, mirroring `AliasRequest` one to one.
#[derive(Clone, Debug, PartialEq, Eq)]
pub enum AliasResponse {
    /// list aliases
    List(CollectionsAliasesResponse),
    /// alias info
    Get(CollectionsAliasesResponse),
    /// creation status
    Create(bool),
    /// deletion status
    Delete(bool),
    /// rename status
    Rename(bool),
}

/// One alias creation, as the engine's alias-change operation carries it.
#[derive(Clone, Debug, PartialEq, Eq)]
pub struct CreateAlias {
    pub collection_name: ColName,
    pub alias_name: String,
}

/// One alias deletion.
#[derive(Clone, Debug, PartialEq, Eq)]
pub struct DeleteAlias {
    pub alias_name: String,
}

/// One alias rename.
#[derive(Clone, Debug, PartialEq, Eq)]
pub struct RenameAlias {
    pub old_alias_name: String,
    pub new_alias_name: String,
}

/// One action of an alias-change operation.
#[derive(Clone, Debug, PartialEq, Eq)]
pub enum AliasOperations {
    CreateAlias(CreateAlias),
    DeleteAlias(DeleteAlias),
    RenameAlias(RenameAlias),
}

/// The engine's alias-change operation: a list of actions.
#[derive(Clone, Debug, PartialEq, Eq)]
pub struct ChangeAliasesOperation {
    pub actions: Vec<AliasOperations>,
}

/// Wraps one alias creation into an alias-change operation.
pub fn create_alias_op(collection_name: ColName, alias_name: String) -> (r:
    ChangeAliasesOperation)
    ensures
        r.actions@ =~= seq![
            AliasOperations::CreateAlias(
                CreateAlias { collection_name: collection_name, alias_name: alias_name },
            ),
        ],
{
    let op = CreateAlias { collection_name, alias_name };
    let op = AliasOperations::CreateAlias(op);
    ChangeAliasesOperation { actions: vec![op] }
}

/// Wraps one alias deletion into an alias-change operation.
pub fn delete_alias_op(alias_name: String) -> (r: ChangeAliasesOperation)
    ensures
        r.actions@ =~= seq![
            AliasOperations::DeleteAlias(DeleteAlias { alias_name: alias_name }),
        ],
{
    let op = DeleteAlias { alias_name };
    let op = AliasOperations::DeleteAlias(op);
    ChangeAliasesOperation { actions: vec![op] }
}

/// Wraps one alias rename into an alias-change operation.
pub fn rename_alias_op(old_alias_name: String, new_alias_name: String) -> (r:
    ChangeAliasesOperation)
    ensures
        r.actions@ =~= seq![
            AliasOperations::RenameAlias(
                RenameAlias {
                    old_alias_name: old_alias_name,
                    new_alias_name: new_alias_name,
                },
            ),
        ],
{
    let op = RenameAlias { old_alias_name, new_alias_name };
    let op = AliasOperations::RenameAlias(op);
    ChangeAliasesOperation { actions: vec![op] }
}

/// What dispatching a collection-family request does: exactly the engine
/// operation the variant names, its result wrapped in the response variant
/// of the same name.
pub open spec fn collection_handle_rel(
    pre: EngineV,
    req: CollectionRequest,
    post: EngineV,
    r: Result<CollectionResponse, EngineError>,
) -> bool {
    match req {
        CollectionRequest::List => match r {
            Ok(resp) => resp is List && list_collections_rel(pre, post, resp->List_0),
            Err(_) => false,
        },
        CollectionRequest::Get(name) => match r {
            Ok(resp) => resp is Get && get_collection_rel(pre, name@, post, Ok(resp->Get_0)),
            Err(e) => get_collection_rel(pre, name@, post, Err(e)),
        },
        CollectionRequest::Create((name, op)) => match r {
            Ok(resp) => resp is Create && create_collection_rel(
                pre,
                name@,
                op,
                post,
                Ok(resp->Create_0),
            ),
            Err(e) => create_collection_rel(pre, name@, op, post, Err(e)),
        },
        CollectionRequest::Update((name, op)) => match r {
            Ok(resp) => resp is Update && update_collection_rel(
                pre,
                name@,
                op,
                post,
                Ok(resp->Update_0),
            ),
            Err(e) => update_collection_rel(pre, name@, op, post, Err(e)),
        },
        CollectionRequest::Delete(name) => match r {
            Ok(resp) => resp is Delete && delete_collection_rel(
                pre,
                name@,
                post,
                Ok(resp->Delete_0),
            ),
            Err(e) => delete_collection_rel(pre, name@, post, Err(e)),
        },
    }
}

/// What dispatching an alias-family request does, in the same way.
pub open spec fn alias_handle_rel(
    pre: EngineV,
    req: AliasRequest,
    post: EngineV,
    r: Result<AliasResponse, EngineError>,
) -> bool {
    match req {
        AliasRequest::List => match r {
            Ok(resp) => resp is List && list_aliases_rel(pre, post, resp->List_0),
            Err(_) => false,
        },
        AliasRequest::Get(name) => match r {
            Ok(resp) => resp is Get && collection_aliases_rel(
                pre,
                name@,
                post,
                Ok(resp->Get_0),
            ),
            Err(e) => collection_aliases_rel(pre, name@, post, Err(e)),
        },
        AliasRequest::Create((collection_name, alias_name)) => match r {
            Ok(resp) => resp is Create && create_alias_rel(
                pre,
                collection_name@,
                alias_name@,
                post,
                Ok(resp->Create_0),
            ),
            Err(e) => create_alias_rel(pre, collection_name@, alias_name@, post, Err(e)),
        },
        AliasRequest::Delete(name) => match r {
            Ok(resp) => resp is Delete && delete_alias_rel(pre, name@, post, Ok(resp->Delete_0)),
            Err(e) => delete_alias_rel(pre, name@, post, Err(e)),
        },
        AliasRequest::Rename((old_name, new_name)) => match r {
            Ok(resp) => resp is Rename && rename_alias_rel(
                pre,
                old_name@,
                new_name@,
                post,
                Ok(resp->Rename_0),
            ),
            Err(e) => rename_alias_rel(pre, old_name@, new_name@, post, Err(e)),
        },
    }
}

impl CollectionRequest {
    /// Routes one collection-family request to its engine operation.
    pub fn handle(self, engine: &mut Engine) -> (r: Result<CollectionResponse, EngineError>)
        requires
            engine_wf(old(engine)@),
        ensures
            engine_wf(final(engine)@),
            collection_handle_rel(old(engine)@, self, final(engine)@, r),
    {
        match self {
            CollectionRequest::List => {
                let collections = engine.all_collections();
                Ok(CollectionResponse::List(collections))
            },
            CollectionRequest::Get(name) => {
                let collection = do_get_collection(engine, &name)?;
                Ok(CollectionResponse::Get(collection))
            },
            CollectionRequest::Create((name, op)) => {
                let ret = engine.create_collection(name, op)?;
                Ok(CollectionResponse::Create(ret))
            },
            CollectionRequest::Update((name, op)) => {
                let ret = engine.update_collection(&name, op)?;
                Ok(CollectionResponse::Update(ret))
            },
            CollectionRequest::Delete(name) => {
                let ret = engine.delete_collection(&name)?;
                Ok(CollectionResponse::Delete(ret))
            },
        }
    }
}

impl AliasRequest {
    /// Routes one alias-family request to its engine operation.
    pub fn handle(self, engine: &mut Engine) -> (r: Result<AliasResponse, EngineError>)
        requires
            engine_wf(old(engine)@),
        ensures
            engine_wf(final(engine)@),
            alias_handle_rel(old(engine)@, self, final(engine)@, r),
    {
        match self {
            AliasRequest::List => {
                let aliases = do_list_aliases(engine);
                Ok(AliasResponse::List(aliases))
            },
            AliasRequest::Get(name) => {
                let aliases = do_list_collection_aliases(engine, &name)?;
                Ok(AliasResponse::Get(aliases))
            },
            AliasRequest::Create((collection_name, alias_name)) => {
                let op = create_alias_op(collection_name, alias_name);
                let ret = apply_alias_op(engine, op)?;
                Ok(AliasResponse::Create(ret))
            },
            AliasRequest::Delete(name) => {
                let op = delete_alias_op(name);
                let ret = apply_alias_op(engine, op)?;
                Ok(AliasResponse::Delete(ret))
            },
            AliasRequest::Rename((old_name, new_name)) => {
                let op = rename_alias_op(old_name, new_name);
                let ret = apply_alias_op(engine, op)?;
                Ok(AliasResponse::Rename(ret))
            },
        }
    }
}

/// Applies a one-action alias-change operation to the engine.
fn apply_alias_op(engine: &mut Engine, op: ChangeAliasesOperation) -> (r: Result<
    bool,
    EngineError,
>)
    requires
        engine_wf(old(engine)@),
        op.actions@.len() == 1,
    ensures
        engine_wf(final(engine)@),
        match op.actions@[0] {
            AliasOperations::CreateAlias(c) => create_alias_rel(
                old(engine)@,
                c.collection_name@,
                c.alias_name@,
                final(engine)@,
                r,
            ),
            AliasOperations::DeleteAlias(d) => delete_alias_rel(
                old(engine)@,
                d.alias_name@,
                final(engine)@,
                r,
            ),
            AliasOperations::RenameAlias(n) => rename_alias_rel(
                old(engine)@,
                n.old_alias_name@,
                n.new_alias_name@,
                final(engine)@,
                r,
            ),
        },
{
    let mut actions = op.actions;
    let action = actions.remove(0);
    match action {
        AliasOperations::CreateAlias(c) => engine.create_alias(&c.collection_name, c.alias_name),
        AliasOperations::DeleteAlias(d) => engine.delete_alias(&d.alias_name),
        AliasOperations::RenameAlias(n) => engine.rename_alias(
            &n.old_alias_name,
            n.new_alias_name,
        ),
    }
}

/// Lists the whole alias table.
fn do_list_aliases(engine: &Engine) -> (r: CollectionsAliasesResponse)
    requires
        engine_wf(engine@),
    ensures
        list_aliases_rel(engine@, engine@, r),
{
    engine.list_aliases()
}

/// Lists one collection's aliases.
fn do_list_collection_aliases(engine: &Engine, collection_name: &String) -> (r: Result<
    CollectionsAliasesResponse,
    EngineError,
>)
    requires
        engine_wf(engine@),
    ensures
        collection_aliases_rel(engine@, collection_name@, engine@, r),
{
    engine.collection_aliases(collection_name)
}

/// Reports a collection's info.
fn do_get_collection(engine: &Engine, name: &String) -> (r: Result<CollectionInfo, EngineError>)
    requires
        engine_wf(engine@),
    ensures
        get_collection_rel(engine@, name@, engine@, r),
{
    engine.get_collection_info(name)
}

} // verus!
