use roblox_api::api::{
    assets, auth, auth_token_service, avatar, badges, data, develop, economy, friends, games,
    groups, hba_service, inventory, marketplace_sales, platform_chat, private_messages,
    toolbox_service, two_step_verification, user_agreements, users,
};
use roblox_api::challenge::ActionType;
use roblox_api::client::{Body, Client, Cookie, Header, Method};
use roblox_api::{AssetTypeId, Currency, DateTime, Paging, SortOrder};

fn client() -> Client {
    let mut client = Client::from_cookie(Cookie::from("secret"));
    client.set_token("token-1");
    client
}

fn json(text: &str) -> Body {
    Body::Json(text.to_string())
}

#[test]
fn user_details_asks_for_one_user() {
    let client = client();
    let request = users::v1::user_details(&client, 1);
    assert_eq!(request.method, Method::Get);
    assert_eq!(request.url, "https://users.roblox.com/v1/users/1");
    assert!(request.query.is_empty());
    assert_eq!(request.headers, client.default_headers());
    assert_eq!(request.body, Body::Empty);
    assert_eq!(
        users::v1::user_details(&client, u64::MAX).url,
        "https://users.roblox.com/v1/users/18446744073709551615"
    );
}

#[test]
fn username_history_writes_limit_order_and_cursor() {
    let client = client();
    let request = users::v1::user_username_history(&client, 7, Paging::default());
    assert_eq!(
        request.url,
        "https://users.roblox.com/v1/users/7/username-history?limit=10&sortOrder=Ascending"
    );
    let paging = Paging::new(Some("next"), Some(50), Some(SortOrder::Descending));
    let request = users::v1::user_username_history(&client, 7, paging);
    assert_eq!(
        request.url,
        "https://users.roblox.com/v1/users/7/username-history?limit=50&sortOrder=Descending&cursor=next"
    );
    let request = users::v1::user_username_history(&client, 7, Paging::new(None, None, None));
    assert_eq!(
        request.url,
        "https://users.roblox.com/v1/users/7/username-history?limit=10&sortOrder=Ascending"
    );
}

#[test]
fn search_by_keyword_adds_cursor_and_session_only_where_given() {
    let client = client();
    let request = users::v1::search_by_keyword(&client, "bob", None, Paging::new(None, Some(25), None));
    assert_eq!(request.url, "https://users.roblox.com/v1/users/search?keyword=bob&limit=25");
    let request =
        users::v1::search_by_keyword(&client, "bob", Some("s1"), Paging::new(Some("c"), None, None));
    assert_eq!(
        request.url,
        "https://users.roblox.com/v1/users/search?keyword=bob&limit=10&cursor=c&session_id=s1"
    );
}

#[test]
fn users_by_id_and_by_name_write_json_lists() {
    let client = client();
    let request = users::v1::users_by_id(&client, &[1, 22, 333], true);
    assert_eq!(request.method, Method::Post);
    assert_eq!(request.url, "https://users.roblox.com/v1/users");
    assert_eq!(request.body, json(r#"{"userIds":[1,22,333],"excludeBannedUsers":true}"#));
    let request = users::v1::users_by_id(&client, &[], false);
    assert_eq!(request.body, json(r#"{"userIds":[],"excludeBannedUsers":false}"#));
    let request = users::v1::users_by_name(&client, &["a", "b\"c"], false);
    assert_eq!(request.url, "https://users.roblox.com/v1/usernames/users");
    assert_eq!(request.body, json(r#"{"usernames":["a","b\"c"],"excludeBannedUsers":false}"#));
}

#[test]
fn set_birthdate_writes_day_month_and_year() {
    let client = client();
    let request = users::v1::set_birthdate(&client, &DateTime::from_ymd(1999, 12, 31)).unwrap();
    assert_eq!(request.method, Method::Post);
    assert_eq!(request.url, "https://users.roblox.com/v1/birthdate");
    assert_eq!(request.body, json(r#"{"birthDay":31,"birthMonth":12,"birthYear":1999}"#));
    let request =
        users::v1::set_birthdate(&client, &DateTime("0044-03-15T12:00:00+01:00".to_string()));
    assert_eq!(
        request.map(|r| r.body),
        Some(json(r#"{"birthDay":15,"birthMonth":3,"birthYear":44}"#))
    );
    assert_eq!(users::v1::set_birthdate(&client, &DateTime("yesterday".to_string())), None);
}

#[test]
fn gender_is_read_from_and_written_as_a_number() {
    let client = client();
    assert_eq!(users::v1::Gender::from_u8(2), users::v1::Gender::Male);
    assert_eq!(users::v1::Gender::from_u8(3), users::v1::Gender::Female);
    assert_eq!(users::v1::Gender::from_u8(1), users::v1::Gender::Unspecified);
    assert_eq!(users::v1::Gender::from_u8(0), users::v1::Gender::Unspecified);
    assert_eq!(users::v1::Gender::from_u8(200), users::v1::Gender::Unspecified);
    assert_eq!(users::v1::Gender::from_repr(200), None);
    assert_eq!(users::v1::Gender::from_repr(3), Some(users::v1::Gender::Female));
    let request = users::v1::set_gender(&client, users::v1::Gender::Female);
    assert_eq!(request.url, "https://users.roblox.com/v1/gender");
    assert_eq!(request.body, json(r#"{"gender":3}"#));
}

#[test]
fn display_names_are_set_with_patch() {
    let client = client();
    let request = users::v1::set_display_name(&client, 5, "New Name");
    assert_eq!(request.method, Method::Patch);
    assert_eq!(request.url, "https://users.roblox.com/v1/users/5/display-names?displayName=New Name");
    assert_eq!(request.body, json(r#"{"newDisplayName":"New Name"}"#));
    let request =
        users::v1::validate_display_name(&client, "n", &DateTime("2000-01-02T00:00:00+00:00".to_string()));
    assert_eq!(
        request.url,
        "https://users.roblox.com/v1/display-names/validate?displayName=n&birthdate=2000-01-02T00:00:00+00:00"
    );
}

#[test]
fn friends_write_their_queries() {
    let client = client();
    let request = friends::v1::friend_requests(&client, Paging::new(None, None, None));
    assert_eq!(request.url, "https://friends.roblox.com/v1/my/friends/requests");
    assert_eq!(request.query, vec![Header::new("cursor", ""), Header::new("limit", "18")]);
    let request = friends::v1::user_friends_search(&client, 9, "al", Paging::new(Some("c"), Some(5), None));
    assert_eq!(request.url, "https://friends.roblox.com/v1/users/9/friends/search");
    assert_eq!(
        request.query,
        vec![Header::new("cursor", "c"), Header::new("limit", "5"), Header::new("query", "al")]
    );
    let request = friends::v1::user_friends_search(&client, 9, "al", Paging::new(None, None, None));
    assert_eq!(request.query[1], Header::new("limit", "36"));
    let request = friends::v1::user_friends_find(&client, 9, Paging::default());
    assert_eq!(
        request.query,
        vec![Header::new("cursor", ""), Header::new("limit", "10"), Header::new("userSort", "1")]
    );
    let request = friends::v1::user_friend_statuses(&client, 9, &[1, 2, 3]);
    assert_eq!(request.query, vec![Header::new("userIds", "1,2,3")]);
    let request = friends::v1::user_friend_statuses(&client, 9, &[]);
    assert_eq!(request.query, vec![Header::new("userIds", "")]);
    let request = friends::v1::following_status(&client, &[4]);
    assert_eq!(request.method, Method::Post);
    assert_eq!(request.body, json(r#"{"targetUserIds":[4]}"#));
    assert_eq!(
        friends::v1::user_followers_count(&client, 3).url,
        "https://friends.roblox.com/v1/users/3/followers/count"
    );
}

#[test]
fn badges_sort_and_page() {
    let client = client();
    let request = badges::v1::universe_badges(
        &client,
        12,
        Some(badges::v1::BadgeSortBy::DateCreated),
        Paging::new(Some("c"), Some(100), Some(SortOrder::Descending)),
    );
    assert_eq!(request.url, "https://badges.roblox.com/v1/universes/12/badges");
    assert_eq!(
        request.query,
        vec![
            Header::new("sortBy", "DateCreated"),
            Header::new("limit", "100"),
            Header::new("sortOrder", "Descending"),
            Header::new("cursor", "c"),
        ]
    );
    let request = badges::v1::user_badges(&client, 12, Paging::new(None, None, None));
    assert_eq!(request.url, "https://badges.roblox.com/v1/users/12/badges");
    assert_eq!(
        request.query,
        vec![
            Header::new("sortBy", ""),
            Header::new("limit", "10"),
            Header::new("sortOrder", "Ascending"),
            Header::new("cursor", ""),
        ]
    );
    let request = badges::v1::remove(&client, 1, 2);
    assert_eq!(request.method, Method::Delete);
    assert_eq!(request.url, "https://badges.roblox.com/v1/user/2/badges/1");
}

#[test]
fn upload_of_data_picks_the_kind_by_the_type() {
    let client = client();
    let request = data::upload(
        &client,
        None,
        "name",
        "text",
        AssetTypeId::Model,
        None,
        1,
        true,
        false,
        &[1, 2, 3],
    );
    assert_eq!(request.method, Method::Post);
    assert_eq!(request.url, "https://data.roblox.com/data/upload.ashx?assetId=0&type=Model");
    assert_eq!(
        request.query,
        vec![
            Header::new("name", "name"),
            Header::new("description", "text"),
            Header::new("genreTypeId", "1"),
            Header::new("isPublic", "true"),
            Header::new("allowComments", "false"),
        ]
    );
    assert_eq!(
        request.headers,
        vec![
            Header::new("cookie", ".ROBLOSECURITY=secret"),
            Header::new("cookie", "RBXEventTrackerV2=&browserid=2"),
            Header::new("x-csrf-token", "token-1"),
            Header::new("accept", "application/json"),
            Header::new("content-type", "application/octect-stream"),
            Header::new("user-agent", "Roblox/WinInet"),
        ]
    );
    assert_eq!(request.body, Body::Bytes(vec![1, 2, 3]));
    let place = data::upload(&client, Some(9), "n", "d", AssetTypeId::Place, Some(44), 0, false, true, &[]);
    assert_eq!(
        place.url,
        "https://data.roblox.com/data/upload.ashx?assetId=9&type=Place&groupId=44"
    );
    let mesh = data::upload(&client, Some(9), "n", "d", AssetTypeId::Mesh, Some(44), 0, false, true, &[]);
    assert_eq!(
        mesh.url,
        "https://data.roblox.com/data/upload.ashx?assetId=9&assetTypeId=4&groupId=44"
    );
}

#[test]
fn upload_of_an_asset_writes_the_form() {
    let client = client();
    let context = assets::v1::CreationContext {
        creator: assets::v1::Creator::UserId("12".to_string()),
        expected_price: None,
    };
    let request = assets::v1::upload(&client, "t", "d", AssetTypeId::Decal, &context);
    assert_eq!(request.url, "https://apis.roblox.com/assets/user-auth/v1/assets");
    assert_eq!(
        request.body,
        Body::Form(
            r#"{"displayName":"t","description":"d","assetType":"Decal","creationContext":{"creator":{"userId":"12"},"expectedPrice":null}}"#
                .to_string()
        )
    );
    assert_eq!(request.headers.last(), Some(&Header::new("accept", "*/*")));
    let context = assets::v1::CreationContext {
        creator: assets::v1::Creator::GroupId("7".to_string()),
        expected_price: Some(50),
    };
    let mut text = String::new();
    context.push_json(&mut text);
    assert_eq!(text, r#"{"creator":{"groupId":"7"},"expectedPrice":50}"#);
    assert_eq!(
        assets::v1::status(&client, "op-1").url,
        "https://apis.roblox.com/assets/user-auth/v1/operations/op-1"
    );
}

#[test]
fn purchases_write_what_the_buyer_expects() {
    let client = client();
    let request = economy::v1::purchase(&client, 10, 250, Currency::Robux, Some(3));
    assert_eq!(request.url, "https://economy.roblox.com/v1/purchases/products/10");
    assert_eq!(
        request.body,
        json(r#"{"expectedCurrency":1,"expectedPrice":250,"expectedSellerId":3}"#)
    );
    let request = economy::v1::purchase(&client, 10, 0, Currency::Tickets, None);
    assert_eq!(
        request.body,
        json(r#"{"expectedCurrency":2,"expectedPrice":0,"expectedSellerId":null}"#)
    );
    let buyer = marketplace_sales::v1::MarketEntity {
        id: 1,
        kind: marketplace_sales::v1::MarketEntityType::User,
    };
    let seller = marketplace_sales::v1::MarketEntity {
        id: 2,
        kind: marketplace_sales::v1::MarketEntityType::default(),
    };
    let request = marketplace_sales::v1::purchase_with_key(
        &client,
        "item-1",
        "product-1",
        99,
        Currency::Robux,
        &buyer,
        &seller,
        "key-1",
    );
    assert_eq!(request.method, Method::Post);
    assert_eq!(
        request.url,
        "https://apis.roblox.com/marketplace-sales/v1/item/item-1/purchase-item"
    );
    assert_eq!(
        request.body,
        json(
            r#"{"collectibleItemId":"item-1","collectibleProductId":"product-1","expectedCurrency":1,"expectedPrice":99,"expectedPurchaserId":1,"expectedPurchaserType":"User","expectedSellerId":2,"expectedSellerType":"User","idempotencyKey":"key-1"}"#
        )
    );
}

#[test]
fn a_purchase_gets_a_key_of_its_own() {
    let client = client();
    let buyer = marketplace_sales::v1::MarketEntity {
        id: 1,
        kind: marketplace_sales::v1::MarketEntityType::User,
    };
    let first = marketplace_sales::v1::purchase(&client, "i", "p", 1, Currency::Robux, &buyer, &buyer);
    let second =
        marketplace_sales::v1::purchase(&client, "i", "p", 1, Currency::Robux, &buyer, &buyer);
    assert_eq!(first.url, second.url);
    let text = match first.body {
        Body::Json(text) => text,
        other => panic!("expected JSON, got {:?}", other),
    };
    let head = r#"{"collectibleItemId":"i","collectibleProductId":"p","expectedCurrency":1,"expectedPrice":1,"expectedPurchaserId":1,"expectedPurchaserType":"User","expectedSellerId":1,"expectedSellerType":"User","idempotencyKey":""#;
    assert!(text.starts_with(head));
    assert!(text.ends_with("\"}"));
    // a UUID in its usual form has 36 characters
    assert_eq!(text.len(), head.len() + 36 + 2);
    assert_ne!(Body::Json(text), second.body);
}

#[test]
fn conversations_are_written_as_lists_of_objects() {
    let client = client();
    let request = platform_chat::v1::send_messages_in_conversation(&client, "c1", &["hi", "a\\b"]);
    assert_eq!(request.url, "https://apis.roblox.com/platform-chat-api/v1/send-messages");
    assert_eq!(
        request.body,
        json(r#"{"conversation_id":"c1","messages":[{"content":"hi"},{"content":"a\\b"}]}"#)
    );
    let request = platform_chat::v1::send_messages_in_conversation(&client, "c1", &[]);
    assert_eq!(request.body, json(r#"{"conversation_id":"c1","messages":[]}"#));
    let create = [
        platform_chat::v1::ConversationCreateRequest { name: "one".to_string(), users: vec![1, 2] },
        platform_chat::v1::ConversationCreateRequest { name: "two".to_string(), users: vec![] },
    ];
    let request = platform_chat::v1::create_conversations(&client, &create);
    assert_eq!(
        request.body,
        json(
            r#"{"conversations":[{"name":"one","type":"group","participant_user_ids":[1,2]},{"name":"two","type":"group","participant_user_ids":[]}],"include_user_data":true}"#
        )
    );
    let request = platform_chat::v1::rename_conversations(&client, &["a", "b", "c"], &["x", "y"]);
    assert_eq!(
        request.body,
        json(r#"{"conversations":[{"id":"a","name":"x"},{"id":"b","name":"y"}]}"#)
    );
    let request = platform_chat::v1::rename_conversations(&client, &[], &["x"]);
    assert_eq!(request.body, json(r#"{"conversations":[]}"#));
    let request = platform_chat::v1::conversations(&client, &["a"]);
    assert_eq!(
        request.body,
        json(
            r#"{"ids":["a"],"include_messages":true,"include_user_data":true,"include_participants":true}"#
        )
    );
    let request = platform_chat::v1::user_conversations(&client, Paging::new(None, None, None));
    assert_eq!(
        request.query,
        vec![
            Header::new("cursor", ""),
            Header::new("include_user_data", "true"),
            Header::new("pageSize", "20"),
        ]
    );
    let request = platform_chat::v1::add_users_to_conversation(&client, "c", &[5, 6]);
    assert_eq!(request.body, json(r#"{"conversation_id":"c","user_ids":[5,6]}"#));
}

#[test]
fn messages_are_asked_for_by_tab() {
    let client = client();
    let request = private_messages::v1::messages(
        &client,
        private_messages::v1::MessageTab::Archive,
        Paging::new(Some("2"), None, None),
    );
    assert_eq!(
        request.query,
        vec![
            Header::new("messageTab", "archive"),
            Header::new("pageNumber", "2"),
            Header::new("pageSize", "100"),
        ]
    );
    assert_eq!(private_messages::v1::MessageTab::default().name(), "inbox");
    assert_eq!(private_messages::v1::MessageTab::Sent.name(), "sent");
    let request = private_messages::v1::mark_as_unread(&client, &[1, 2]);
    assert_eq!(request.url, "https://privatemessages.roblox.com/v1/messages/mark-unread");
    assert_eq!(request.body, json(r#"{"messageIds":[1,2]}"#));
    assert_eq!(
        private_messages::v1::unarchive(&client, &[]).url,
        "https://privatemessages.roblox.com/v1/messages/unarchive"
    );
}

#[test]
fn lists_of_numbers_go_into_addresses_and_queries() {
    let client = client();
    assert_eq!(
        develop::v1::assets(&client, &[1, 20, 300]).url,
        "https://develop.roblox.com/v1/assets?assetIds=1,20,300"
    );
    assert_eq!(develop::v1::assets(&client, &[]).url, "https://develop.roblox.com/v1/assets?assetIds=");
    assert_eq!(
        toolbox_service::v1::item_details(&client, &[5]).url,
        "https://apis.roblox.com/toolbox-service/v1/items/details?assetIds=5"
    );
    assert_eq!(
        toolbox_service::v1::creations(
            &client,
            1,
            AssetTypeId::Audio,
            Paging::new(Some("n"), None, None)
        )
        .url,
        "https://apis.roblox.com/toolbox-service/v1/creations/user/1/3?limit=30&cursor=n"
    );
    let request = games::v1::universe_votes(&client, &[7, 8]);
    assert_eq!(request.query, vec![Header::new("universeIds", "7,8")]);
    let request = games::v1::servers(&client, 1, 0, true, Paging::default());
    assert_eq!(request.url, "https://games.roblox.com/v1/games/1/servers/0");
    assert_eq!(request.query[0], Header::new("excludeFullGames", "true"));
    let request = games::v2::user_games(&client, 3, 2, Paging::default());
    assert_eq!(request.url, "https://games.roblox.com/v2/users/3/games");
    assert_eq!(request.query[0], Header::new("accessFilter", "2"));
    let request = inventory::v1::user_owned_collectibles(
        &client,
        1,
        Some(AssetTypeId::Hat),
        Paging::default(),
    );
    assert_eq!(request.query[0], Header::new("assetType", "8"));
    let request = inventory::v1::user_owned_collectibles(&client, 1, None, Paging::default());
    assert_eq!(request.query[0], Header::new("assetType", ""));
    assert_eq!(
        inventory::v1::user_owns_assets(&client, 1, 2, inventory::v1::ItemType::Badge, Paging::default())
            .url,
        "https://inventory.roblox.com/v1/users/1/items/2/2"
    );
    assert_eq!(
        inventory::v2::user_owned_assets(&client, 1, AssetTypeId::DynamicHead, Paging::default()).url,
        "https://inventory.roblox.com/v2/users/1/inventory/79"
    );
}

#[test]
fn groups_send_empty_objects_where_the_server_wants_a_body() {
    let client = client();
    let request = groups::v1::join(&client, 4);
    assert_eq!(request.method, Method::Post);
    assert_eq!(request.url, "https://groups.roblox.com/v1/groups/4/users");
    assert_eq!(request.body, json(r#"{"sessionId":"","redemptionToken":""}"#));
    let request = groups::v1::remove(&client, 4, 5);
    assert_eq!(request.method, Method::Delete);
    assert_eq!(request.url, "https://groups.roblox.com/v1/groups/4/users/5");
    assert_eq!(request.body, json("{}"));
    let request = groups::v1::membership(&client, 4, false);
    assert_eq!(request.query, vec![Header::new("includeNotificationPreferences", "false")]);
}

#[test]
fn login_and_its_codes() {
    let client = client();
    let intent = auth::v1::AuthenticationIntent {
        public_key: "pk".to_string(),
        epoch_timestamp: 1700000000,
        signature: "sig".to_string(),
        nonce: "n".to_string(),
    };
    let request = auth::v1::login(&client, "bob", "pw", auth::v1::LoginType::default(), &intent);
    assert_eq!(request.url, "https://auth.roblox.com/v1/login");
    assert_eq!(
        request.body,
        json(
            r#"{"ctype":"Username","cvalue":"bob","password":"pw","secureAuthenticationIntent":{"clientPublicKey":"pk","clientEpochTimestamp":1700000000,"saiSignature":"sig","serverNonce":"n"}}"#
        )
    );
    assert_eq!(auth::v1::authentication_binding("pk", 12, "nonce"), "pk:12:nonce");
    let request = auth_token_service::v1::login_status(&client, "c", "k");
    assert_eq!(request.body, json(r#"{"code":"c","privateKey":"k"}"#));
    let request = auth_token_service::v1::qr_code_image(&client, "k", "c");
    assert_eq!(request.method, Method::Get);
    assert_eq!(request.query, vec![Header::new("key", "k"), Header::new("code", "c")]);
    let request = two_step_verification::v1::authenticator_verify(
        &client,
        5,
        "123456",
        ActionType::Login,
        "srv",
    );
    assert_eq!(
        request.url,
        "https://twostepverification.roblox.com/v1/users/5/challenges/authenticator/verify"
    );
    assert_eq!(
        request.body,
        json(r#"{"actionType":"Login","challengeId":"srv","code":"123456"}"#)
    );
    let request = user_agreements::v1::acceptances(&client, &["a", "b"]);
    assert_eq!(
        request.body,
        json(r#"{"acceptances":[{"agreementId":"a"},{"agreementId":"b"}]}"#)
    );
}

#[test]
fn the_avatar_is_dressed_and_painted() {
    let client = client();
    let request = avatar::v1::avatar_set_wearing_assets(&client, &[1, 2]);
    assert_eq!(request.body, json(r#"{"assetIds":[1,2]}"#));
    let request = avatar::v1::avatar_set_type(&client, avatar::v1::AvatarType::R15);
    assert_eq!(request.body, json(r#"{"playerAvatarType":"R15"}"#));
    let colors = avatar::v1::BodyColors {
        head: 1,
        torso: 2,
        right_arm: 3,
        left_arm: 4,
        right_leg: 5,
        left_leg: 255,
    };
    let request = avatar::v1::avatar_set_body_colors(&client, &colors);
    assert_eq!(
        request.body,
        json(
            r#"{"headColorId":1,"torsoColorId":2,"rightArmColorId":3,"leftArmColorId":4,"rightLegColorId":5,"leftLegColorId":255}"#
        )
    );
    let request = avatar::v1::user_outfits(&client, 9, Paging::new(None, None, None), None);
    assert_eq!(
        request.query,
        vec![
            Header::new("page", "1"),
            Header::new("itemsPerPage", "25"),
            Header::new("isEditable", ""),
        ]
    );
    let request = avatar::v1::user_outfits(&client, 9, Paging::new(Some("3"), Some(5), None), Some(true));
    assert_eq!(
        request.query,
        vec![
            Header::new("page", "3"),
            Header::new("itemsPerPage", "5"),
            Header::new("isEditable", "true"),
        ]
    );
    assert_eq!(avatar::v1::AvatarType::from_repr(1), Some(avatar::v1::AvatarType::R6));
    assert_eq!(avatar::v1::AvatarType::from_repr(3), None);
    assert_eq!(avatar::v1::MorphAvatarType::MorphR15.id(), 2);
}

#[test]
fn the_nonce_loses_its_quotes() {
    assert_eq!(hba_service::v1::nonce_of("\"abc\""), "abc");
    assert_eq!(hba_service::v1::nonce_of("\"\""), "");
    assert_eq!(hba_service::v1::nonce_of("\u{e9}x\u{e9}"), "x");
    assert_eq!(
        hba_service::v1::server_nonce(&client()).url,
        "https://apis.roblox.com/hba-service/v1/getservernonce"
    );
}

#[test]
fn participants_are_read_with_their_numbers() {
    let reports = vec![
        platform_chat::v1::ReportedParticipants {
            id: "c1".to_string(),
            participants: vec![("12".to_string(), true), ("+7".to_string(), false)],
        },
        platform_chat::v1::ReportedParticipants { id: "c2".to_string(), participants: vec![] },
    ];
    assert_eq!(
        platform_chat::v1::participant_metadata(&reports),
        Some(vec![
            platform_chat::v1::ConversationsParticipantMetadata {
                id: "c1".to_string(),
                participants: vec![
                    platform_chat::v1::ParticipantMetadata { id: 12, is_pending: true },
                    platform_chat::v1::ParticipantMetadata { id: 7, is_pending: false },
                ],
            },
            platform_chat::v1::ConversationsParticipantMetadata {
                id: "c2".to_string(),
                participants: vec![],
            },
        ])
    );
    assert_eq!(platform_chat::v1::participant_metadata(&vec![]), Some(vec![]));
    for wrong in ["", "x", "-1", " 1", "1.0", "18446744073709551616"] {
        let reports = vec![platform_chat::v1::ReportedParticipants {
            id: "c".to_string(),
            participants: vec![("1".to_string(), true), (wrong.to_string(), true)],
        }];
        assert_eq!(platform_chat::v1::participant_metadata(&reports), None);
        assert_eq!(
            platform_chat::v1::read_participants(&vec![(wrong.to_string(), false)]),
            None
        );
    }
}

#[test]
fn the_identifier_of_an_upload_is_read_from_the_body() {
    assert_eq!(data::uploaded_id(b"123456"), Some(123456));
    assert_eq!(data::uploaded_id(b"18446744073709551615"), Some(u64::MAX));
    assert_eq!(data::uploaded_id(b"0"), Some(0));
    assert_eq!(data::uploaded_id(b""), None);
    assert_eq!(data::uploaded_id(b"12 "), None);
    assert_eq!(data::uploaded_id(b"{\"id\":1}"), None);
    assert_eq!(data::uploaded_id(&[b'1', 0xff]), None);
}
