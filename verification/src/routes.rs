//! The decision cores of the HTTP routes: what each route does once the
//! session layer has authenticated the caller and the transport has handed
//! over the bytes. Sessions, uploads and status codes stay with the
//! application shell; the decisions are verified here, generically over any
//! `Repository`.

use vstd::prelude::*;

use crate::data::{opt_bytes_view, NewVoltInfo, NewVoltInfoModel, PluginData, User};
use crate::errors::{PublishError, UnpublishPluginError};
use crate::naming::{is_valid_plugin_name, valid_plugin_name};
use crate::registry::{
    full_name, make_full_name, plugin_lookup, publish_outcome, save_icon_outcome,
    unpublish_outcome, Repository,
};

verus! {

/// Why a create-plugin request was refused.
#[derive(Debug, PartialEq, Eq)]
pub enum CreatePluginError {
    /// The short name is not lowercase kebab-case.
    InvalidName,
    /// The registry refused the publish.
    Publish(PublishError),
}

/// Replaces the icon of the caller's plugin `"<username>.<name>"`:
/// `Ok(None)` when the caller has no such plugin, otherwise the icon is
/// validated and stored.
pub fn change_plugin_icon<R: Repository>(
    repo: &mut R,
    user: &User,
    name: &String,
    icon: &[u8],
) -> (r: Result<Option<()>, PublishError>)
    ensures
        ({
            let full = full_name(user@.username, name@);
            match plugin_lookup(old(repo).model(), full) {
                Err(e) => r == Ok::<Option<()>, PublishError>(None) && final(repo).model() == old(
                    repo,
                ).model(),
                Ok(p) => ({
                    let (res, m2) = save_icon_outcome(old(repo).model(), full, icon@);
                    final(repo).model() == m2 && (match (r, res) {
                        (Ok(o), Ok(u)) => o == Some(()),
                        (Err(e1), Err(e2)) => e1 == e2,
                        _ => false,
                    })
                }),
            }
        }),
{
    let full = make_full_name(&user.username, name);
    match repo.get_plugin(full.clone()) {
        Err(_) => Ok(None),
        Ok(_) => match repo.save_icon(full, icon) {
            Ok(u) => Ok(Some(())),
            Err(e) => Err(e),
        },
    }
}

/// Creates the caller's plugin `"<username>.<name>"`. A short name that is
/// not lowercase kebab-case is refused as `InvalidName` before anything
/// else; the publish itself then decides.
pub fn create_plugin<R: Repository>(
    repo: &mut R,
    publisher_id: i64,
    name: String,
    display_name: String,
    description: String,
    icon: Option<Vec<u8>>,
) -> (r: Result<PluginData, CreatePluginError>)
    ensures
        !valid_plugin_name(name@) ==> r == Err::<PluginData, CreatePluginError>(
            CreatePluginError::InvalidName,
        ) && final(repo).model() == old(repo).model(),
        valid_plugin_name(name@) ==> ({
            let info = NewVoltInfoModel {
                name: name@,
                display_name: display_name@,
                description: description@,
                publisher_id: publisher_id as int,
                icon: opt_bytes_view(icon),
            };
            let (res, m2) = publish_outcome(old(repo).model(), info);
            final(repo).model() == m2 && (match (r, res) {
                (Ok(p), Ok(pm)) => p@ == pm,
                (Err(e1), Err(e2)) => e1 == CreatePluginError::Publish(e2),
                _ => false,
            })
        }),
{
    if !is_valid_plugin_name(name.as_str()) {
        return Err(CreatePluginError::InvalidName);
    }
    let volt_info = NewVoltInfo { name, display_name, description, publisher_id, icon };
    match repo.publish(volt_info) {
        Ok(p) => Ok(p),
        Err(e) => Err(CreatePluginError::Publish(e)),
    }
}

/// Unpublishes the caller's plugin `"<username>.<name>"` for good.
pub fn delete_plugin<R: Repository>(repo: &mut R, user: &User, name: &String) -> (r: Result<
    (),
    UnpublishPluginError,
>)
    ensures
        ({
            let (res, m2) = unpublish_outcome(
                old(repo).model(),
                full_name(user@.username, name@),
            );
            final(repo).model() == m2 && (match (r, res) {
                (Ok(u1), Ok(u2)) => true,
                (Err(e1), Err(e2)) => e1 == e2,
                _ => false,
            })
        }),
{
    let full = make_full_name(&user.username, name);
    repo.unpublish_plugin(full)
}

} // verus!
