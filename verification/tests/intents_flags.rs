use discors::intents::{
    self, GatewayIntents, ALL_INTENTS, PRIVILEGED_INTENTS,
};
use discors::user::UserFlags;

#[test]
fn privileged_is_the_three_gated_intents() {
    let p = GatewayIntents::privileged();
    assert_eq!(
        p.bits(),
        intents::GUILD_MEMBERS | intents::GUILD_PRESENCES | intents::MESSAGE_CONTENT
    );
    assert_eq!(p.bits(), PRIVILEGED_INTENTS);
}

#[test]
fn non_privileged_is_the_complement_within_defined_bits() {
    let np = GatewayIntents::non_privileged();
    assert_eq!(np.bits(), !PRIVILEGED_INTENTS & ALL_INTENTS);
    assert_eq!(np.bits() & PRIVILEGED_INTENTS, 0);
    assert_eq!(np.union(GatewayIntents::privileged()).bits(), ALL_INTENTS);
    assert_eq!(GatewayIntents::default(), np);
}

#[test]
fn intent_bits_truncate_to_defined_ones() {
    let all = GatewayIntents::from_bits_truncate(u32::MAX);
    assert_eq!(all.bits(), ALL_INTENTS);
    assert!(all.contains(GatewayIntents::privileged()));
    let none = GatewayIntents::empty();
    assert_eq!(none.bits(), 0);
    assert!(!none.contains(GatewayIntents::privileged()));
}

#[test]
fn complement_stays_within_defined_bits() {
    let only_guilds = GatewayIntents::from_bits_truncate(intents::GUILDS);
    let rest = only_guilds.complement();
    assert_eq!(rest.bits(), ALL_INTENTS & !intents::GUILDS);
    assert_eq!(rest.union(only_guilds).bits(), ALL_INTENTS);
}

#[test]
fn user_flags_truncate_to_defined_ones() {
    let f = UserFlags::from_bits_truncate(u64::MAX);
    assert_eq!(f.bits(), discors::user::ALL_USER_FLAGS);
    let f = UserFlags::from_bits_truncate(discors::user::STAFF | (1 << 40));
    assert_eq!(f.bits(), discors::user::STAFF);
}
