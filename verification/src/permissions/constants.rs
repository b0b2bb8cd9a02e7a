//! The permission groups. Every permission of a planet belongs to one of the first three.
use vstd::prelude::*;

verus! {

/// The character views of a sequence of string slices.
pub open spec fn strs_view(v: Seq<&str>) -> Seq<Seq<char>> {
    v.map_values(|s: &str| s@)
}

/// Permissions of anyone who may view a public planet.
pub open spec fn viewer_permissions_spec() -> Seq<Seq<char>> {
    seq![
        "+planet.view"@,
        "+planet.member.view"@,
        "+page.view"@,
        "+forum.view"@,
        "+files.view"@,
        "+files.search"@,
        "+files.files.download"@,
        "+files.folders.download"@,
        "+chat.view"@,
        "+chat.search"@,
    ]
}

/// Permissions of anyone who may view a public planet.
pub fn viewer_permissions() -> (v: Vec<&'static str>)
    ensures
        strs_view(v@) == viewer_permissions_spec(),
{
    let v: Vec<&'static str> = vec![
        "+planet.view",
        "+planet.member.view",
        "+page.view",
        "+forum.view",
        "+files.view",
        "+files.search",
        "+files.files.download",
        "+files.folders.download",
        "+chat.view",
        "+chat.search",
    ];
    assert(strs_view(v@) =~= viewer_permissions_spec());
    v
}

/// Permissions of an ordinary member.
pub open spec fn member_permissions_spec() -> Seq<Seq<char>> {
    seq![
        "+forum.posts.create"@,
        "+forum.posts.edit.own"@,
        "+forum.posts.delete.own"@,
        "+forum.posts.react.own"@,
        "+forum.posts.react.others"@,
        "+forum.posts.attach"@,
        "+forum.post.reply"@,
        "+forum.tags.use"@,
        "+chat.messages.send"@,
        "+chat.messages.delete.own"@,
        "+chat.messages.edit.own"@,
        "+chat.messages.react.own"@,
        "+chat.messages.react.others"@,
        "+chat.messages.attach"@,
    ]
}

/// Permissions of an ordinary member.
pub fn member_permissions() -> (v: Vec<&'static str>)
    ensures
        strs_view(v@) == member_permissions_spec(),
{
    let v: Vec<&'static str> = vec![
        "+forum.posts.create",
        "+forum.posts.edit.own",
        "+forum.posts.delete.own",
        "+forum.posts.react.own",
        "+forum.posts.react.others",
        "+forum.posts.attach",
        "+forum.post.reply",
        "+forum.tags.use",
        "+chat.messages.send",
        "+chat.messages.delete.own",
        "+chat.messages.edit.own",
        "+chat.messages.react.own",
        "+chat.messages.react.others",
        "+chat.messages.attach",
    ];
    assert(strs_view(v@) =~= member_permissions_spec());
    v
}

/// Permissions granted to administrators (and owners).
pub open spec fn administrator_permissions_spec() -> Seq<Seq<char>> {
    seq![
        "+administrator"@,
        "+administrator.read_all"@,
        "+administrator.write_all"@,
        "+planet.change_name"@,
        "+planet.change_description"@,
        "+planet.component.create"@,
        "+planet.component.rename"@,
        "+planet.component.delete"@,
        "+planet.component.move"@,
        "+planet.component.set_home"@,
        "+planet.roles.create"@,
        "+planet.roles.rename"@,
        "+planet.roles.change_color"@,
        "+planet.roles.edit"@,
        "+planet.roles.delete"@,
        "+planet.roles.reorder"@,
        "+planet.roles.add_member"@,
        "+planet.member.edit_permissions"@,
        "+planet.emojis.create"@,
        "+planet.emojis.delete"@,
        "+planet.change_css"@,
        "+page.edit"@,
        "+forum.posts.edit.others"@,
        "+forum.posts.delete.others"@,
        "+forum.posts.sticky"@,
        "+forum.posts.lock.set"@,
        "+forum.posts.lock.ignore"@,
        "+forum.tags.create"@,
        "+forum.tags.delete"@,
        "+files.files.upload"@,
        "+files.files.delete.own"@,
        "+files.files.delete.others"@,
        "+files.files.rename.own"@,
        "+files.files.rename.others"@,
        "+files.folders.create"@,
        "+files.folders.delete.own"@,
        "+files.folders.delete.others"@,
        "+files.folders.rename.own"@,
        "+files.folders.rename.others"@,
        "+chat.set_topic"@,
        "+chat.messages.delete.others"@,
        "+chat.messages.edit.others"@,
        "+chat.messages.pin.own"@,
        "+chat.messages.pin.others"@,
    ]
}

/// Permissions granted to administrators (and owners).
pub fn administrator_permissions() -> (v: Vec<&'static str>)
    ensures
        strs_view(v@) == administrator_permissions_spec(),
{
    let v: Vec<&'static str> = vec![
        "+administrator",
        "+administrator.read_all",
        "+administrator.write_all",
        "+planet.change_name",
        "+planet.change_description",
        "+planet.component.create",
        "+planet.component.rename",
        "+planet.component.delete",
        "+planet.component.move",
        "+planet.component.set_home",
        "+planet.roles.create",
        "+planet.roles.rename",
        "+planet.roles.change_color",
        "+planet.roles.edit",
        "+planet.roles.delete",
        "+planet.roles.reorder",
        "+planet.roles.add_member",
        "+planet.member.edit_permissions",
        "+planet.emojis.create",
        "+planet.emojis.delete",
        "+planet.change_css",
        "+page.edit",
        "+forum.posts.edit.others",
        "+forum.posts.delete.others",
        "+forum.posts.sticky",
        "+forum.posts.lock.set",
        "+forum.posts.lock.ignore",
        "+forum.tags.create",
        "+forum.tags.delete",
        "+files.files.upload",
        "+files.files.delete.own",
        "+files.files.delete.others",
        "+files.files.rename.own",
        "+files.files.rename.others",
        "+files.folders.create",
        "+files.folders.delete.own",
        "+files.folders.delete.others",
        "+files.folders.rename.own",
        "+files.folders.rename.others",
        "+chat.set_topic",
        "+chat.messages.delete.others",
        "+chat.messages.edit.others",
        "+chat.messages.pin.own",
        "+chat.messages.pin.others",
    ];
    assert(strs_view(v@) =~= administrator_permissions_spec());
    v
}

/// Permissions granted to the owner only.
pub open spec fn owner_permissions_spec() -> Seq<Seq<char>> {
    seq![
        "+owner"@,
        "+planet.change_publicity"@,
        "+planet.delete"@,
    ]
}

/// Permissions granted to the owner only.
pub fn owner_permissions() -> (v: Vec<&'static str>)
    ensures
        strs_view(v@) == owner_permissions_spec(),
{
    let v: Vec<&'static str> = vec![
        "+owner",
        "+planet.change_publicity",
        "+planet.delete",
    ];
    assert(strs_view(v@) =~= owner_permissions_spec());
    v
}

} // verus!
