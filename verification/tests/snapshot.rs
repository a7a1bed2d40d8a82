use raffletkt::{AccountId, Config, Error, RaffleTkt, Snapshot};

const OWNER: AccountId = [0xAA; 32];
const FUND: AccountId = [0xBB; 32];

fn account(tag: u8) -> AccountId {
    [tag; 32]
}

fn rules() -> Config {
    Config { min_stake: 1, max_stake: 10, min_players: 2, lock_duration: 10, max_winners: 2 }
}

fn plain(players: Vec<AccountId>, winners: Vec<AccountId>, deadline: Option<u64>) -> Snapshot {
    Snapshot {
        config: rules(),
        owner: OWNER,
        beneficiary: FUND,
        players,
        winners,
        deadline,
        balance: 9,
    }
}

#[test]
fn a_snapshot_holds_what_the_raffle_holds() {
    let mut raffle = RaffleTkt::new(OWNER, FUND, rules());
    assert!(raffle.raffle_play(account(1), 4, 5).is_ok());
    assert!(raffle.raffle_play(account(2), 5, 6).is_ok());
    assert!(raffle.raffle_play(account(3), 6, 7).is_ok());
    assert!(raffle.raffle_draw(account(1), 16, 1).is_ok());
    assert_eq!(
        raffle.snapshot(),
        Snapshot {
            config: rules(),
            owner: OWNER,
            beneficiary: FUND,
            players: vec![account(1), account(3)],
            winners: vec![account(2)],
            deadline: Some(16),
            balance: 15,
        }
    );
}

#[test]
fn a_restored_raffle_goes_on_where_the_first_stood() {
    let mut raffle = RaffleTkt::new(OWNER, FUND, rules());
    assert!(raffle.raffle_play(account(1), 4, 5).is_ok());
    assert!(raffle.raffle_play(account(2), 5, 6).is_ok());
    assert!(raffle.raffle_play(account(3), 6, 7).is_ok());
    assert!(raffle.raffle_draw(account(1), 16, 1).is_ok());

    let kept = raffle.snapshot();
    let mut restored = RaffleTkt::restore(&kept).expect("the snapshot of a raffle is restorable");
    assert_eq!(restored.snapshot(), kept);

    assert_eq!(restored.raffle_play(account(2), 5, 20), Err(Error::UserHasAlreadyPlayed));
    assert_eq!(restored.raffle_play(account(3), 5, 20), Err(Error::UserHasAlreadyPlayed));
    assert_eq!(restored.raffle_draw(account(4), 20, 0), Err(Error::InvalidPlayer));
    assert_eq!(restored.raffle_draw(account(2), 15, 0), Err(Error::RaffleNotDrawable));
    let a = raffle.raffle_draw(account(2), 16, 77);
    let b = restored.raffle_draw(account(2), 16, 77);
    assert_eq!(a, b);
    assert_eq!(raffle.snapshot(), restored.snapshot());
    assert!(restored.raffle_is_game_closed());
}

#[test]
fn a_snapshot_with_an_account_twice_is_not_restored() {
    assert!(RaffleTkt::restore(&plain(vec![account(1), account(1)], vec![], None)).is_none());
    assert!(
        RaffleTkt::restore(&plain(vec![account(1)], vec![account(2), account(2)], Some(0)))
            .is_none()
    );
    assert!(
        RaffleTkt::restore(&plain(vec![account(1), account(2)], vec![account(2)], Some(0)))
            .is_none()
    );
    assert!(
        RaffleTkt::restore(&plain(vec![account(1), account(2)], vec![account(3)], Some(0)))
            .is_some()
    );
}

#[test]
fn a_snapshot_with_too_many_or_too_early_winners_is_not_restored() {
    let three = vec![account(1), account(2), account(3)];
    assert!(RaffleTkt::restore(&plain(vec![], three, Some(0))).is_none());
    assert!(RaffleTkt::restore(&plain(vec![], vec![account(1)], None)).is_none());
    assert!(RaffleTkt::restore(&plain(vec![], vec![account(1), account(2)], Some(0))).is_some());
    assert!(RaffleTkt::restore(&plain(vec![], vec![], None)).is_some());
}
