use aruna_ape::ape::contexts::{
    merge_resources, AllUserPermission, ApeResourcePermission, ApeUserPermission, Context,
    Permission, PermissionError, PermissionLevels, PolicyError, ResWithPerm, Resource,
    ResourceContext, ResourceId,
};
use aruna_ape::ape::permissions::{Attributes, GetPermissions, Token, User};

const USER_ULID: &str = "01ARZ3NDEKTSV4RRFFQ69G5FAV";
const USER_ID: u128 = 1777027686520646174104517696511196507;
const TOKEN_ULID: &str = "01H819W7HKJX5DXQ6B3ZVVQ5XS";
const TOKEN_ID: u128 = 2045818054478526612644809858204014521;

fn holder(perms: Vec<ResWithPerm>) -> AllUserPermission {
    AllUserPermission { perms, user_id: Some(USER_ID), is_sa: false, is_admin: false }
}

#[test]
fn test_filter_perms() {
    let resource_permission = ApeResourcePermission { id: 77, level: PermissionLevels::ADMIN, allow_sa: true };

    let admin = AllUserPermission { perms: vec![], user_id: Some(USER_ID), is_sa: false, is_admin: true };
    assert_eq!(admin.compare_ctx(Context::GlobalAdmin), (true, None));

    let user = holder(vec![ResWithPerm::Object((5, PermissionLevels::WRITE))]);
    assert_eq!(
        user.compare_ctx(Context::User(ApeUserPermission { id: USER_ID, allow_proxy: false })),
        (true, None)
    );

    let other = AllUserPermission {
        perms: vec![ResWithPerm::Object((5, PermissionLevels::ADMIN))],
        user_id: Some(USER_ID + 1),
        is_sa: false,
        is_admin: false,
    };
    assert_eq!(
        other.compare_ctx(Context::User(ApeUserPermission { id: USER_ID, allow_proxy: false })),
        (false, None)
    );

    let direct = holder(vec![ResWithPerm::Object((77, PermissionLevels::ADMIN))]);
    assert_eq!(
        direct.compare_ctx(Context::ResourceContext(ResourceContext::Object(resource_permission))),
        (true, None)
    );

    let too_low = holder(vec![ResWithPerm::Object((77, PermissionLevels::READ))]);
    assert_eq!(
        too_low.compare_ctx(Context::ResourceContext(ResourceContext::Object(resource_permission))),
        (false, None)
    );

    let service_account = AllUserPermission {
        perms: vec![ResWithPerm::Object((5, PermissionLevels::ADMIN))],
        user_id: Some(USER_ID),
        is_sa: true,
        is_admin: false,
    };
    assert_eq!(
        service_account.compare_ctx(Context::User(ApeUserPermission { id: USER_ID, allow_proxy: false })),
        (false, None)
    );

    let elsewhere = holder(vec![ResWithPerm::Object((5, PermissionLevels::ADMIN))]);
    assert_eq!(
        elsewhere.compare_ctx(Context::ResourceContext(ResourceContext::Object(resource_permission))),
        (true, Some((Resource::Object(77), vec![Resource::Object(5)])))
    );
}

#[test]
fn levels_of_resource_permissions() {
    let levels = [
        PermissionLevels::DENY,
        PermissionLevels::NONE,
        PermissionLevels::READ,
        PermissionLevels::APPEND,
        PermissionLevels::WRITE,
        PermissionLevels::ADMIN,
    ];
    for (i, a) in levels.iter().enumerate() {
        assert_eq!(a.level_rank() as usize, i);
        for (j, b) in levels.iter().enumerate() {
            assert_eq!(a.allows(b), j <= i);
            assert_eq!(a >= b, j <= i);
        }
    }
    assert_eq!(PermissionLevels::from_i32(0), PermissionLevels::DENY);
    assert_eq!(PermissionLevels::from_i32(1), PermissionLevels::DENY);
    assert_eq!(PermissionLevels::from_i32(2), PermissionLevels::NONE);
    assert_eq!(PermissionLevels::from_i32(3), PermissionLevels::READ);
    assert_eq!(PermissionLevels::from_i32(4), PermissionLevels::APPEND);
    assert_eq!(PermissionLevels::from_i32(5), PermissionLevels::WRITE);
    assert_eq!(PermissionLevels::from_i32(6), PermissionLevels::ADMIN);
    assert_eq!(PermissionLevels::from_i32(7), PermissionLevels::DENY);
    assert_eq!(PermissionLevels::from_i32(-3), PermissionLevels::DENY);
}

#[test]
fn context_builders() {
    assert_eq!(Context::empty(), Context::Empty);
    assert_eq!(Context::admin(), Context::GlobalAdmin);
    assert_eq!(Context::user(4, true), Context::User(ApeUserPermission { id: 4, allow_proxy: true }));
    assert_eq!(Context::res_proj(None), Context::ResourceContext(ResourceContext::Project(None)));
    let perm = ApeResourcePermission::new(9, PermissionLevels::WRITE, true);
    assert_eq!(perm, ApeResourcePermission { id: 9, level: PermissionLevels::WRITE, allow_sa: true });
    assert_eq!(
        Context::res_proj(Some((9, PermissionLevels::WRITE, true))),
        Context::ResourceContext(ResourceContext::Project(Some(perm)))
    );
    assert_eq!(
        Context::res_col(9, PermissionLevels::WRITE, true),
        Context::ResourceContext(ResourceContext::Collection(perm))
    );
    assert_eq!(
        Context::res_ds(9, PermissionLevels::WRITE, true),
        Context::ResourceContext(ResourceContext::Dataset(perm))
    );
    assert_eq!(
        Context::res_obj(9, PermissionLevels::WRITE, true),
        Context::ResourceContext(ResourceContext::Object(perm))
    );
}

#[test]
fn wire_permissions_are_read() {
    let read = |resource_id, permission_level| ResWithPerm::try_from(Permission { permission_level, resource_id });
    assert_eq!(
        read(Some(ResourceId::ProjectId(USER_ULID.to_string())), 5),
        Ok(ResWithPerm::Project((USER_ID, PermissionLevels::WRITE)))
    );
    assert_eq!(
        read(Some(ResourceId::CollectionId(TOKEN_ULID.to_string())), 3),
        Ok(ResWithPerm::Collection((TOKEN_ID, PermissionLevels::READ)))
    );
    assert_eq!(
        read(Some(ResourceId::DatasetId(USER_ULID.to_string())), 0),
        Ok(ResWithPerm::Dataset((USER_ID, PermissionLevels::DENY)))
    );
    assert_eq!(
        read(Some(ResourceId::ObjectId(USER_ULID.to_string())), 99),
        Ok(ResWithPerm::Object((USER_ID, PermissionLevels::DENY)))
    );
    assert_eq!(read(None, 5), Err(PermissionError::UnknownResourceId));
    assert_eq!(
        read(Some(ResourceId::ObjectId("no ulid".to_string())), 5),
        Err(PermissionError::InvalidResourceId)
    );
    let held = ResWithPerm::Object((3, PermissionLevels::APPEND));
    assert_eq!(held.resource_id(), 3);
    assert_eq!(held.held_level(), PermissionLevels::APPEND);
}

#[test]
fn single_permission_checks() {
    let perms = holder(vec![
        ResWithPerm::Project((1, PermissionLevels::WRITE)),
        ResWithPerm::Collection((2, PermissionLevels::READ)),
        ResWithPerm::Dataset((3, PermissionLevels::ADMIN)),
        ResWithPerm::Object((1, PermissionLevels::ADMIN)),
        ResWithPerm::Object((4, PermissionLevels::NONE)),
    ]);
    let ask = |id, level| perms.compare_ctx(Context::res_obj(id, level, false));
    assert_eq!(ask(2, PermissionLevels::READ), (true, None));
    assert_eq!(
        ask(2, PermissionLevels::WRITE),
        (true, Some((Resource::Object(2), vec![Resource::Project(1), Resource::Dataset(3), Resource::Object(1)])))
    );
    assert_eq!(
        ask(9, PermissionLevels::READ),
        (
            true,
            Some((
                Resource::Object(9),
                vec![Resource::Project(1), Resource::Collection(2), Resource::Dataset(3), Resource::Object(1)],
            )),
        )
    );
    assert_eq!(ask(3, PermissionLevels::ADMIN), (true, None));
    assert_eq!(
        ask(9, PermissionLevels::ADMIN),
        (true, Some((Resource::Object(9), vec![Resource::Dataset(3), Resource::Object(1)])))
    );
    let weak = holder(vec![ResWithPerm::Project((1, PermissionLevels::READ))]);
    assert_eq!(weak.compare_ctx(Context::res_proj(Some((1, PermissionLevels::WRITE, false)))), (false, None));
    assert_eq!(weak.compare_ctx(Context::res_proj(Some((1, PermissionLevels::READ, false)))), (true, None));
    assert_eq!(
        weak.compare_ctx(Context::res_proj(Some((2, PermissionLevels::READ, false)))),
        (true, Some((Resource::Project(2), vec![Resource::Project(1)])))
    );
    assert_eq!(
        weak.compare_ctx(Context::res_col(2, PermissionLevels::READ, false)),
        (true, Some((Resource::Collection(2), vec![Resource::Project(1)])))
    );
    assert_eq!(
        weak.compare_ctx(Context::res_ds(2, PermissionLevels::READ, false)),
        (true, Some((Resource::Dataset(2), vec![Resource::Project(1)])))
    );
    assert_eq!(
        weak.compare_ctx(Context::res_obj(2, PermissionLevels::READ, false)),
        (true, Some((Resource::Object(2), vec![Resource::Project(1)])))
    );
    let collection = AllUserPermission {
        perms: vec![ResWithPerm::Collection((6, PermissionLevels::WRITE))],
        user_id: None,
        is_sa: false,
        is_admin: false,
    };
    assert_eq!(
        collection.compare_ctx(Context::res_col(7, PermissionLevels::READ, false)),
        (true, Some((Resource::Collection(7), vec![Resource::Collection(6)])))
    );
    assert_eq!(weak.compare_ctx(Context::res_proj(None)), (true, None));
    assert_eq!(weak.compare_ctx(Context::empty()), (true, None));
    assert_eq!(weak.compare_ctx(Context::admin()), (false, None));
}

#[test]
fn service_accounts_pass_where_allowed() {
    let mut account = AllUserPermission::default();
    assert_eq!(account, AllUserPermission { perms: vec![], user_id: None, is_sa: false, is_admin: false });
    assert_eq!(account.compare_ctx(Context::res_obj(1, PermissionLevels::ADMIN, true)), (false, None));
    account.is_sa = true;
    assert_eq!(account.compare_ctx(Context::res_obj(1, PermissionLevels::ADMIN, true)), (true, None));
    assert_eq!(account.compare_ctx(Context::res_obj(1, PermissionLevels::ADMIN, false)), (false, None));
}

#[test]
fn personal_scope_is_the_users() {
    let user = holder(vec![]);
    assert_eq!(user.compare_ctx(Context::user(USER_ID, false)), (true, None));
    assert_eq!(user.compare_ctx(Context::user(USER_ID, true)), (true, None));
    assert_eq!(user.compare_ctx(Context::user(USER_ID + 1, false)), (false, None));
    assert_eq!(user.compare_ctx(Context::user(USER_ID + 1, true)), (false, None));
    let mut account = holder(vec![]);
    account.is_sa = true;
    assert_eq!(account.compare_ctx(Context::user(USER_ID, false)), (false, None));
    assert_eq!(account.compare_ctx(Context::user(USER_ID, true)), (false, None));
    account.is_admin = true;
    assert_eq!(account.compare_ctx(Context::user(USER_ID, true)), (false, None));
    let mut nobody = AllUserPermission::default();
    assert_eq!(nobody.compare_ctx(Context::user(5, true)), (true, None));
    assert_eq!(nobody.compare_ctx(Context::user(5, false)), (false, None));
    nobody.is_sa = true;
    assert_eq!(nobody.compare_ctx(Context::user(5, true)), (false, None));
}

#[test]
fn requests_are_authorized() {
    let perms = holder(vec![
        ResWithPerm::Project((1, PermissionLevels::WRITE)),
        ResWithPerm::Collection((2, PermissionLevels::READ)),
    ]);
    assert_eq!(perms.authorize(Context::res_col(2, PermissionLevels::READ, false)), Ok(None));
    assert_eq!(
        perms.authorize(Context::res_obj(8, PermissionLevels::WRITE, false)),
        Ok(Some((Resource::Object(8), vec![Resource::Project(1)])))
    );
    assert_eq!(
        perms.authorize(Context::res_obj(8, PermissionLevels::ADMIN, false)),
        Err(PolicyError::InvalidPermissions)
    );
    assert_eq!(perms.authorize(Context::admin()), Err(PolicyError::InvalidPermissions));
    assert_eq!(
        perms.authorize_all(vec![
            Context::empty(),
            Context::res_obj(8, PermissionLevels::WRITE, false),
            Context::res_col(2, PermissionLevels::READ, false),
            Context::res_proj(Some((9, PermissionLevels::READ, false))),
            Context::user(USER_ID, false),
            Context::res_obj(8, PermissionLevels::READ, false),
        ]),
        Ok(Some((
            vec![Resource::Object(8), Resource::Project(9), Resource::Object(8)],
            vec![Resource::Project(1), Resource::Collection(2)],
        )))
    );
    assert_eq!(perms.authorize_all(vec![]), Ok(None));
    assert_eq!(
        perms.authorize_all(vec![
            Context::empty(),
            Context::res_col(2, PermissionLevels::READ, false),
            Context::user(USER_ID, false),
        ]),
        Ok(None)
    );
    assert_eq!(
        perms.authorize_all(vec![Context::empty(), Context::admin(), Context::empty()]),
        Err(PolicyError::InvalidPermissions)
    );
}

#[test]
fn resources_are_merged_once() {
    let mut into = vec![Resource::Project(1), Resource::Object(1)];
    merge_resources(&mut into, &vec![Resource::Object(1), Resource::Project(2), Resource::Project(2), Resource::Project(1)]);
    assert_eq!(into, vec![Resource::Project(1), Resource::Object(1), Resource::Project(2)]);
}

#[test]
fn record_gives_the_scope_of_a_token() {
    let scope = Permission { permission_level: 4, resource_id: Some(ResourceId::CollectionId(USER_ULID.to_string())) };
    let user = User {
        attributes: Some(Attributes {
            global_admin: false,
            service_account: false,
            tokens: vec![
                Token { id: USER_ULID.to_string(), permission: None },
                Token { id: TOKEN_ULID.to_string(), permission: None },
                Token { id: TOKEN_ULID.to_string(), permission: Some(Permission { permission_level: 4, resource_id: None }) },
                Token { id: TOKEN_ULID.to_string(), permission: Some(scope.clone()) },
                Token {
                    id: TOKEN_ULID.to_string(),
                    permission: Some(Permission { permission_level: 6, resource_id: Some(ResourceId::ProjectId(USER_ULID.to_string())) }),
                },
            ],
            personal_permissions: vec![scope.clone()],
        }),
    };
    assert_eq!(
        user.get_permissions(Some(TOKEN_ID)),
        Ok(vec![ResWithPerm::Collection((USER_ID, PermissionLevels::APPEND))])
    );
    assert_eq!(user.get_permissions(Some(USER_ID)), Ok(vec![]));
    assert_eq!(user.get_permissions(Some(5)), Ok(vec![]));
    assert_eq!(user.get_permissions(None), Ok(vec![]));
    assert_eq!(User { attributes: None }.get_permissions(Some(TOKEN_ID)), Err(PermissionError::MissingAttributes));
    assert_eq!(User { attributes: None }.get_permissions(None), Err(PermissionError::MissingAttributes));
    let broken = User {
        attributes: Some(Attributes {
            global_admin: false,
            service_account: false,
            tokens: vec![Token {
                id: TOKEN_ULID.to_string(),
                permission: Some(Permission { permission_level: 6, resource_id: Some(ResourceId::ProjectId("x".to_string())) }),
            }],
            personal_permissions: vec![],
        }),
    };
    assert_eq!(broken.get_permissions(Some(TOKEN_ID)), Err(PermissionError::InvalidResourceId));
}

#[test]
fn record_gives_all_a_user_is_permitted() {
    let scope = Permission { permission_level: 5, resource_id: Some(ResourceId::ProjectId(USER_ULID.to_string())) };
    let user = User {
        attributes: Some(Attributes {
            global_admin: true,
            service_account: false,
            tokens: vec![Token { id: TOKEN_ULID.to_string(), permission: Some(scope) }],
            personal_permissions: vec![],
        }),
    };
    assert_eq!(
        user.permissions_for(9, Some(TOKEN_ID)),
        Ok(AllUserPermission {
            perms: vec![ResWithPerm::Project((USER_ID, PermissionLevels::WRITE))],
            user_id: Some(9),
            is_sa: false,
            is_admin: true,
        })
    );
    let account = User {
        attributes: Some(Attributes {
            global_admin: false,
            service_account: true,
            tokens: vec![],
            personal_permissions: vec![],
        }),
    };
    assert_eq!(
        account.permissions_for(3, None),
        Ok(AllUserPermission { perms: vec![], user_id: Some(3), is_sa: true, is_admin: false })
    );
    assert_eq!(User { attributes: None }.permissions_for(3, None), Err(PermissionError::MissingAttributes));
}

#[test]
fn held_resources_keep_their_tier() {
    assert_eq!(ResWithPerm::Project((1, PermissionLevels::READ)).held_resource(), Resource::Project(1));
    assert_eq!(ResWithPerm::Collection((2, PermissionLevels::READ)).held_resource(), Resource::Collection(2));
    assert_eq!(ResWithPerm::Dataset((3, PermissionLevels::READ)).held_resource(), Resource::Dataset(3));
    assert_eq!(ResWithPerm::Object((4, PermissionLevels::READ)).held_resource(), Resource::Object(4));
}
