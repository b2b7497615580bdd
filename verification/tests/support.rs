use corematch::account::{Account, AccountState, AccountStatus, SigningStatus};
use corematch::block_timer::BlockTimer;
use corematch::feed::{
    block_of, corespace_of, fetch_para_ids, nft_id_for, para_ids_of_keys, previous_block_numbers,
};
use corematch::corespace::Core;
use corematch::game::{BoardStatus, GameHelpStatus, GameLevel, GameStatus};
use corematch::block::BlockView;
use corematch::corespace::CoreView;
use corematch::keyboard::SupportedKeys;
use corematch::network::{generate_parachain_colors, NetworkState, NetworkStatus};
use corematch::router::{Query, Routes};
use corematch::subscription::{Action, Event, Provider, Signal};
use corematch::support::{SupportedParachainRuntime, SupportedRelayRuntime};
use corematch::text::decimal_string;
use corematch::utils::{
    compact, get_nft_id_from_storage_key, get_para_id_from_storage_key, str, try_str,
};
use corematch::views::{column_boxes, column_title, visible_class};
use std::collections::BTreeMap;

#[test]
fn relay_runtimes() {
    let polkadot = SupportedRelayRuntime::Polkadot;
    let kusama = SupportedRelayRuntime::Kusama;
    assert_eq!(polkadot._chain_prefix(), 0);
    assert_eq!(kusama._chain_prefix(), 2);
    assert_eq!(polkadot.default_rpc_url(), "wss://rpc.ibp.network:443/polkadot");
    assert_eq!(kusama.default_rpc_url(), "wss://rpc.ibp.network:443/kusama");
    assert_eq!(polkadot.default_people_rpc_url(), "wss://sys.ibp.network:443/people-polkadot");
    assert_eq!(kusama.default_people_rpc_url(), "wss://sys.ibp.network:443/people-kusama");
    assert_eq!(polkadot.unit(), "DOT");
    assert_eq!(kusama.unit(), "KSM");
    assert_eq!(polkadot.decimals(), 10);
    assert_eq!(kusama.decimals(), 12);
    assert_eq!(polkadot.class(), "polkadot");
    assert_eq!(kusama.class(), "kusama");
    assert_eq!(polkadot.to_string(), "Polkadot");
    assert_eq!(kusama.to_string(), "Kusama");
    assert_eq!(polkadot.columns_size(), 8);
    assert_eq!(kusama.columns_size(), 8);
    assert_eq!(polkadot.hashtag(), "@Polkadot #BuildOnPolkadot");
    assert_eq!(kusama.hashtag(), "@kusamanetwork #BuildOnKusama");
    assert_eq!(polkadot.asset_hub_runtime(), SupportedParachainRuntime::AssetHubPolkadot);
    assert_eq!(kusama.asset_hub_runtime(), SupportedParachainRuntime::AssetHubKusama);
}

#[test]
fn relay_runtime_from_name_and_prefix() {
    for name in ["Polkadot", "polkadot", "DOT"] {
        assert_eq!(SupportedRelayRuntime::from_name(name), Some(SupportedRelayRuntime::Polkadot));
    }
    for name in ["Kusama", "kusama", "KSM"] {
        assert_eq!(SupportedRelayRuntime::from_name(name), Some(SupportedRelayRuntime::Kusama));
    }
    for name in ["", "POLKADOT", "dot", "westend", "Kusama "] {
        assert_eq!(SupportedRelayRuntime::from_name(name), None);
    }
    assert_eq!(SupportedRelayRuntime::from_prefix(0), Some(SupportedRelayRuntime::Polkadot));
    assert_eq!(SupportedRelayRuntime::from_prefix(2), Some(SupportedRelayRuntime::Kusama));
    assert_eq!(SupportedRelayRuntime::from_prefix(1), None);
    assert_eq!(SupportedRelayRuntime::from_prefix(42), None);
}

#[test]
fn parachain_runtimes() {
    assert_eq!(SupportedParachainRuntime::AssetHubPolkadot.default_rpc_url(), "wss://sys.ibp.network/westmint");
    assert_eq!(SupportedParachainRuntime::AssetHubKusama.default_rpc_url(), "wss://sys.ibp.network/westmint");
    assert_eq!(SupportedParachainRuntime::AssetHubPolkadot.to_string(), "AssetHub Polkadot");
    assert_eq!(SupportedParachainRuntime::AssetHubKusama.to_string(), "AssetHub Polkadot");
}

#[test]
fn game_levels() {
    assert_eq!(GameLevel::Level1.block_view(), BlockView::Cores);
    assert_eq!(GameLevel::Level2.block_view(), BlockView::Cores);
    assert_eq!(GameLevel::Level1.collected_points_per_level_minimum(), 32);
    assert_eq!(GameLevel::Level1.match_x_position(), 3);
    assert_eq!(GameLevel::Level2.match_x_position(), 0);
    assert_eq!(GameLevel::Level1.class(), "level__1");
    assert_eq!(GameLevel::Level2.class(), "level__2");
    assert_eq!(GameLevel::Level1.to_string(), "Level 1");
    assert_eq!(GameLevel::Level2.to_string(), "Level 2");
    assert!(matches!(GameLevel::Level1.core_view(None), CoreView::Binary));
    assert!(matches!(GameLevel::Level1.core_view(Some(BTreeMap::new())), CoreView::Binary));
    assert!(matches!(GameLevel::Level2.core_view(None), CoreView::NotApplicable));
    let mut colors = BTreeMap::new();
    colors.insert(7u32, (1u32, 2u32, 3u32));
    match GameLevel::Level2.core_view(Some(colors)) {
        CoreView::Multi(given) => assert_eq!(given.get(&7), Some(&(1, 2, 3))),
        _ => panic!("the second level draws in colours"),
    }
}

#[test]
fn game_status_in_words() {
    assert_eq!(GameStatus::Init.to_string(), "Initializing");
    assert_eq!(GameStatus::Ready.to_string(), "Ready for play");
    assert_eq!(GameStatus::Reload.to_string(), "Reload");
    assert_eq!(GameStatus::On.to_string(), "Is On!");
    assert_eq!(GameStatus::Over.to_string(), "Is Over!");
    assert_eq!(GameStatus::MoveTo(GameLevel::Level2).to_string(), "Moving to Level 2");
    assert_eq!(GameStatus::MoveTo(GameLevel::Level1).to_string(), "Moving to Level 1");
    assert_ne!(BoardStatus::Mint, BoardStatus::Leaderboard);
}

#[test]
fn help_status_tells_itself() {
    assert!(GameHelpStatus::On.is_on());
    assert!(!GameHelpStatus::On.is_available());
    assert!(!GameHelpStatus::On.is_not_available());
    assert!(GameHelpStatus::Available.is_available());
    assert!(!GameHelpStatus::Available.is_on());
    assert!(GameHelpStatus::NotAvailable.is_not_available());
    assert!(!GameHelpStatus::NotAvailable.is_available());
}

#[test]
fn keys_from_their_names() {
    let named = [
        ("ArrowUp", SupportedKeys::Up),
        ("ArrowDown", SupportedKeys::Down),
        ("ArrowLeft", SupportedKeys::Left),
        ("ArrowRight", SupportedKeys::Right),
        ("Enter", SupportedKeys::Enter),
        ("Space", SupportedKeys::Space),
        (" ", SupportedKeys::Space),
        ("S", SupportedKeys::S),
        ("s", SupportedKeys::S),
        ("H", SupportedKeys::H),
        ("h", SupportedKeys::H),
        ("F", SupportedKeys::F),
        ("f", SupportedKeys::F),
        ("", SupportedKeys::NotSupported),
        ("enter", SupportedKeys::NotSupported),
        ("1", SupportedKeys::NotSupported),
        ("Escape", SupportedKeys::NotSupported),
    ];
    for (name, key) in named {
        assert_eq!(SupportedKeys::from(name.to_string()), key);
    }
}

#[test]
fn network_state_tells_its_status() {
    let mut state = NetworkState::new(SupportedRelayRuntime::Kusama);
    assert!(state.is_initializing());
    assert!(!state.is_active());
    assert!(!state.is_switching());
    assert!(!state.is_valid(3));
    assert_eq!(state.class(), "kusama");
    assert!(state.parachain_colors.is_empty());
    state.subscription_id = Some(3);
    assert!(!state.is_valid(3));
    state.status = NetworkStatus::Active;
    assert!(state.is_active());
    assert!(state.is_valid(3));
    assert!(!state.is_valid(4));
    state.status = NetworkStatus::Switching;
    assert!(state.is_switching());
    assert!(!state.is_valid(3));
    let copy = state.clone();
    assert_eq!(copy.status, NetworkStatus::Switching);
    assert_eq!(copy.subscription_id, Some(3));
    assert_ne!(NetworkStatus::Inactive, NetworkStatus::Active);
    assert_eq!(corematch::network::STOP_SIGNAL, "stop");
    assert_eq!(corematch::network::CONTINUE_SIGNAL, "continue");
}

#[test]
fn parachain_colours_are_drawn_from_the_palette() {
    assert!(generate_parachain_colors(Vec::new()).is_empty());
    let one = generate_parachain_colors(vec![2000]);
    assert_eq!(one.get(&2000), Some(&(0, 96, 68)));
    let ids: Vec<u32> = (1000..1007).collect();
    for _ in 0..20 {
        let colors = generate_parachain_colors(ids.clone());
        assert_eq!(colors.len(), 7);
        let mut hues: Vec<u32> = ids.iter().map(|id| colors[id].0).collect();
        hues.sort();
        // steps of 360 / 7 = 51 degrees
        assert_eq!(hues, vec![0, 51, 102, 153, 204, 255, 306]);
        assert!(colors.values().all(|color| color.1 == 96 && color.2 == 68));
    }
    // a parachain listed twice keeps the colour drawn last
    let twice = generate_parachain_colors(vec![5, 5]);
    assert_eq!(twice.len(), 1);
    assert!(twice[&5] == (0, 96, 68) || twice[&5] == (180, 96, 68));
    // more parachains than degrees: every step is 0 degrees wide
    let many = generate_parachain_colors((0..400).collect());
    assert_eq!(many.len(), 400);
    assert!(many.values().all(|color| *color == (0, 96, 68)));
}

#[test]
fn storage_keys_end_in_their_number() {
    assert_eq!(get_para_id_from_storage_key(vec![0xd0, 0x07, 0, 0]), 2000);
    assert_eq!(get_para_id_from_storage_key(vec![9, 9, 9, 0xe8, 0x03, 0, 0]), 1000);
    assert_eq!(get_para_id_from_storage_key(vec![1, 2, 3, 4, 0x04, 0x03, 0x02, 0x01]), 0x01020304);
    assert_eq!(get_para_id_from_storage_key(vec![0xff, 0xff, 0xff, 0xff]), u32::MAX);
    assert_eq!(get_nft_id_from_storage_key(vec![7, 0xa0, 0x86, 0x01, 0]), 100000);
}

#[test]
fn para_ids_come_sorted_from_the_keys() {
    let keys = vec![vec![0, 0xd0, 0x07, 0, 0], vec![0xe8, 0x03, 0, 0], vec![5, 5, 0xd4, 0x07, 0, 0], vec![0xe8, 0x03, 0, 0]];
    assert_eq!(para_ids_of_keys(keys.clone()), vec![2000, 1000, 2004, 1000]);
    assert_eq!(fetch_para_ids(keys), vec![1000, 1000, 2000, 2004]);
    assert!(fetch_para_ids(Vec::new()).is_empty());
}

#[test]
fn bytes_spell_text_in_utf8() {
    assert_eq!(str(b"corematch".to_vec()), "corematch");
    assert_eq!(str("■□".as_bytes().to_vec()), "■□");
    assert_eq!(str(Vec::new()), "");
    assert_eq!(try_str(b"DOT".to_vec()).as_deref(), Some("DOT"));
    assert_eq!(try_str(vec![0xff, 0xfe]), None);
    assert_eq!(try_str(vec![0xe2, 0x96]), None);
}

#[test]
fn addresses_are_cut_to_both_ends() {
    assert_eq!(compact("15oF4uVJwmo4TdGW7VfQxNLavjCXviqxT9S1MgbjMNHr6Sp5"), "15oF...6Sp5");
    assert_eq!(compact("abcd"), "abcd...abcd");
    assert_eq!(compact("abcde"), "abcd...bcde");
}

#[test]
fn numbers_in_decimal() {
    assert_eq!(decimal_string(0), "0");
    assert_eq!(decimal_string(7), "7");
    assert_eq!(decimal_string(10), "10");
    assert_eq!(decimal_string(1234567890), "1234567890");
    assert_eq!(decimal_string(u64::MAX), "18446744073709551615");
}

#[test]
fn feed_keeps_the_cores_that_are_shown() {
    assert_eq!(
        corespace_of(vec![Some(7), None, Some(9)]),
        vec![Core::new(0, Some(7)), Core::new(1, None), Core::new(2, Some(9))]
    );
    assert!(corespace_of(Vec::new()).is_empty());
    let many: Vec<Option<u32>> = (0..70).map(Some).collect();
    let kept = corespace_of(many.clone());
    assert_eq!(kept.len(), 64);
    assert_eq!(kept[63], Core::new(63, Some(63)));
    let block = block_of(12, many, SupportedRelayRuntime::Kusama);
    assert_eq!(block.block_number, 12);
    assert_eq!(block.corespace.len(), 64);
    assert_eq!(block.runtime, SupportedRelayRuntime::Kusama);
    assert!(!block.is_selected());
}

#[test]
fn earlier_blocks_come_oldest_first() {
    assert_eq!(previous_block_numbers(100, 9), vec![91, 92, 93, 94, 95, 96, 97, 98, 99]);
    assert_eq!(previous_block_numbers(3, 3), vec![0, 1, 2]);
    assert!(previous_block_numbers(5, 0).is_empty());
    assert_eq!(previous_block_numbers(u32::MAX, 1), vec![u32::MAX - 1]);
}

#[test]
fn results_go_to_the_item_of_the_account() {
    assert_eq!(nft_id_for(Some(17)), (17, false));
    for _ in 0..50 {
        let (id, mint) = nft_id_for(None);
        assert!(mint);
        assert!((100000..200000).contains(&id));
    }
}

#[test]
fn countdown_runs_in_tenths() {
    let mut timer = BlockTimer::new();
    assert_eq!((timer.seconds, timer.milliseconds), (6, 0));
    assert_eq!(timer.label(), " 6.0s");
    assert!(timer.update());
    assert_eq!((timer.seconds, timer.milliseconds), (5, 9));
    assert_eq!(timer.label(), " 5.9s");
    for _ in 0..9 {
        assert!(timer.update());
    }
    assert_eq!((timer.seconds, timer.milliseconds), (5, 0));
    for _ in 0..50 {
        assert!(timer.update());
    }
    assert_eq!((timer.seconds, timer.milliseconds), (0, 0));
    assert!(!timer.update());
    assert_eq!((timer.seconds, timer.milliseconds), (0, 0));
    assert!(timer.changed());
    assert_eq!(timer, BlockTimer::new());
    timer.update();
    timer.reset();
    assert_eq!((timer.seconds, timer.milliseconds), (6, 0));
}

#[test]
fn routes_and_queries() {
    assert_eq!(Routes::Index.path(), "/");
    assert_eq!(Routes::NotFound.path(), "/404");
    assert_eq!(Routes::from_path("/"), Routes::Index);
    assert_eq!(Routes::from_path("/404"), Routes::NotFound);
    assert_eq!(Routes::from_path("/anything"), Routes::NotFound);
    assert_eq!(Routes::from_path(""), Routes::NotFound);
    assert_eq!(Query::chain_or_default(None), SupportedRelayRuntime::Polkadot);
    assert_eq!(
        Query::chain_or_default(Some(Query { chain: SupportedRelayRuntime::Kusama })),
        SupportedRelayRuntime::Kusama
    );
}

#[test]
fn account_state_tells_its_status() {
    let mut state = AccountState::new(SupportedParachainRuntime::AssetHubKusama);
    assert!(state.is_none());
    assert!(!state.is_available());
    assert!(state.account.is_none());
    assert_eq!(state.runtime, SupportedParachainRuntime::AssetHubKusama);
    let account = Account {
        name: "alice".to_string(),
        source: "polkadot-js".to_string(),
        ty: "sr25519".to_string(),
        address: "15oF4uVJwmo4TdGW7VfQxNLavjCXviqxT9S1MgbjMNHr6Sp5".to_string(),
    };
    assert_eq!(account.clone(), account);
    state.status = AccountStatus::Selection(vec![account.clone()]);
    assert!(!state.is_none());
    assert!(!state.is_available());
    state.account = Some(account);
    state.status = AccountStatus::Selected;
    assert!(state.is_available());
    state.status = AccountStatus::Signing("8/2/100".to_string());
    assert!(!state.is_available());
    state.status = AccountStatus::Requesting;
    assert!(!state.is_none());
    assert_ne!(SigningStatus::Failed, SigningStatus::Succeeded);
}

#[test]
fn columns_show_what_is_left() {
    assert_eq!(column_boxes(4, 4), vec![true, true, true, true]);
    assert_eq!(column_boxes(4, 1), vec![true, false, false, false]);
    assert_eq!(column_boxes(8, 0), vec![false; 8]);
    assert!(column_boxes(0, 0).is_empty());
    assert_eq!(column_title(3, "attempts left!"), "3 attempts left!");
    assert_eq!(column_title(0, "helps left!"), "0 helps left!");
    assert_eq!(visible_class(true), "visible");
    assert_eq!(visible_class(false), "hidden");
}

#[test]
fn provider_decides_what_the_feed_does() {
    let (mut provider, first) = Provider::new(SupportedRelayRuntime::Polkadot);
    assert_eq!(first, Action::Connect(SupportedRelayRuntime::Polkadot));
    assert_eq!(provider, Provider { runtime: SupportedRelayRuntime::Polkadot, has_channel: false });
    assert_eq!(
        provider.update(Event::ClientCreated),
        vec![
            Action::FetchParachains(SupportedRelayRuntime::Polkadot),
            Action::Subscribe(SupportedRelayRuntime::Polkadot),
        ]
    );
    assert_eq!(provider.update(Event::ParachainsCollected), vec![Action::EmitParachains]);
    // a block before there is a channel goes to the game all the same
    assert_eq!(provider.update(Event::DataReceived), vec![Action::EmitBlock]);
    assert_eq!(provider.update(Event::ContextChanged(SupportedRelayRuntime::Polkadot)), Vec::new());
    assert_eq!(
        provider.update(Event::SubscriptionCreated(11)),
        vec![Action::EmitSubscription(11), Action::Send(Signal::Continue)]
    );
    assert!(provider.has_channel);
    assert_eq!(
        provider.update(Event::DataReceived),
        vec![Action::Send(Signal::Continue), Action::EmitBlock]
    );
    assert_eq!(
        provider.update(Event::ContextChanged(SupportedRelayRuntime::Kusama)),
        vec![Action::Send(Signal::Stop), Action::Connect(SupportedRelayRuntime::Kusama)]
    );
    assert_eq!(provider.runtime, SupportedRelayRuntime::Kusama);
    assert_eq!(
        provider.update(Event::ClientCreated),
        vec![
            Action::FetchParachains(SupportedRelayRuntime::Kusama),
            Action::Subscribe(SupportedRelayRuntime::Kusama),
        ]
    );
    assert_eq!(Signal::Stop.text(), "stop");
    assert_eq!(Signal::Continue.text(), "continue");
    assert!(Signal::is_stop("stop"));
    assert!(!Signal::is_stop("continue"));
    assert!(!Signal::is_stop(""));
}
