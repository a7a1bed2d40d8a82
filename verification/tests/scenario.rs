use raffletkt::{
    AccountId, Config, Drawn, Error, NewPlayer, Picked, Played, RaffleStarted, RaffleTkt, Teardown,
    Transfer, TransferFailed, WinnerPicked,
};

const ALICE: AccountId = [0x01; 32];
const BOB: AccountId = [0x02; 32];
const CHARLIE: AccountId = [0x03; 32];
const DJANGO: AccountId = [0x04; 32];
const EVE: AccountId = [0x05; 32];
const FRANK: AccountId = [0x06; 32];

#[test]
fn default_works() {
    let mut raffletkt = RaffleTkt::default(ALICE, ALICE, 4, 4 * 1000);

    let tst_players_list = vec![
        (BOB, 15_000_000_000_000u128),
        (CHARLIE, 15_000_000_000_000),
        (DJANGO, 15_000_000_000_000),
        (EVE, 15_000_000_000_000),
        (FRANK, 15_000_000_000_000),
    ];

    for (tst_player_inx, tst_player_val) in tst_players_list.iter() {
        let play_stat = raffletkt.raffle_play(*tst_player_inx, *tst_player_val, 0);
        assert!(play_stat.is_ok());
    }
    assert_eq!(raffletkt.raffle_getdonation_balance(), 75_000_000_000_000);
    assert_eq!(raffletkt.raffle_getplayersid(), vec![BOB, CHARLIE, DJANGO, EVE, FRANK]);

    let mut tst_break_loop = false;
    let mut random: u32 = 7;
    while tst_break_loop == false {
        for (tst_player_inx, _) in tst_players_list.iter() {
            let draw_stat = raffletkt.raffle_draw(*tst_player_inx, 4000, random);
            assert!(draw_stat.is_ok());
            random += 1;

            if raffletkt.raffle_is_game_closed() == true {
                tst_break_loop = true;

                let settled = raffletkt.raffle_transfer_fund_to_beneficiary(true);
                assert_eq!(settled, Ok(()));

                let trans_balan_stat = raffletkt.raffle_draw(*tst_player_inx, 4000, random);
                assert_eq!(trans_balan_stat, Err(Error::RaffleClosed));

                break;
            }
        }
    }

    let win_list = raffletkt.raffle_getwinnerid();
    // 7 % 5 = 2 picks Django, Frank takes the slot; 8 % 4 = 0 picks Bob.
    assert_eq!(win_list, vec![DJANGO, BOB]);
    assert_eq!(raffletkt.raffle_getplayersid(), vec![EVE, CHARLIE, FRANK]);
    assert_eq!(raffletkt.raffle_getdonation_balance(), 0);
}

#[test]
fn three_players_two_winners_from_entry_to_teardown() {
    let owner: AccountId = [0xAA; 32];
    let beneficiary: AccountId = [0xBB; 32];
    let config = Config {
        min_stake: 1,
        max_stake: 10,
        min_players: 3,
        lock_duration: 100,
        max_winners: 2,
    };
    let mut raffle = RaffleTkt::new(owner, beneficiary, config);

    assert_eq!(
        raffle.raffle_play(ALICE, 5, 7),
        Ok(Played { joined: NewPlayer { player: ALICE }, started: None })
    );
    assert_eq!(raffle.raffle_getplayersid().len(), 1);
    assert_eq!(
        raffle.raffle_play(BOB, 5, 8),
        Ok(Played { joined: NewPlayer { player: BOB }, started: None })
    );
    assert_eq!(raffle.raffle_getplayersid().len(), 2);
    assert_eq!(
        raffle.raffle_play(CHARLIE, 5, 9),
        Ok(Played {
            joined: NewPlayer { player: CHARLIE },
            started: Some(RaffleStarted { start_date: 109 }),
        })
    );
    assert_eq!(raffle.raffle_getplayersid(), vec![ALICE, BOB, CHARLIE]);
    assert_eq!(raffle.raffle_getdonation_balance(), 15);

    // Before the deadline.
    assert_eq!(raffle.raffle_draw(ALICE, 108, 4), Err(Error::RaffleNotDrawable));
    assert_eq!(raffle.raffle_getplayersid(), vec![ALICE, BOB, CHARLIE]);

    // At the deadline: 4 % 3 = 1 picks Bob, Charlie takes the slot.
    assert_eq!(
        raffle.raffle_draw(ALICE, 109, 4),
        Ok(Drawn { picked: Picked::Winner(WinnerPicked { winner: BOB }), settlement: None })
    );
    assert_eq!(raffle.raffle_getplayersid(), vec![ALICE, CHARLIE]);
    assert_eq!(raffle.raffle_getwinnerid(), vec![BOB]);
    assert!(!raffle.raffle_is_game_closed());
    assert_eq!(raffle.raffle_settlement(), None);

    // 6 % 2 = 0 picks Alice; the game closes and the settlement falls due.
    assert_eq!(
        raffle.raffle_draw(BOB, 200, 6),
        Ok(Drawn {
            picked: Picked::Winner(WinnerPicked { winner: ALICE }),
            settlement: Some(Transfer { to: beneficiary, value: 15 }),
        })
    );
    assert_eq!(raffle.raffle_getplayersid(), vec![CHARLIE]);
    assert_eq!(raffle.raffle_getwinnerid(), vec![BOB, ALICE]);
    assert!(raffle.raffle_is_game_closed());

    assert_eq!(raffle.raffle_transfer_fund_to_beneficiary(true), Ok(()));
    assert_eq!(raffle.raffle_getdonation_balance(), 0);

    assert_eq!(raffle.raffle_draw(CHARLIE, 300, 1), Err(Error::RaffleClosed));
    assert_eq!(raffle.raffle_getwinnerid(), vec![BOB, ALICE]);

    assert_eq!(raffle.raffle_terminate(owner), Ok(Some(Teardown { heir: owner })));
}

#[test]
fn failed_transfer_keeps_the_balance_for_another_try() {
    let owner: AccountId = [0xAA; 32];
    let beneficiary: AccountId = [0xBB; 32];
    let config =
        Config { min_stake: 1, max_stake: 10, min_players: 1, lock_duration: 0, max_winners: 1 };
    let mut raffle = RaffleTkt::new(owner, beneficiary, config);
    assert!(raffle.raffle_play(ALICE, 10, 0).is_ok());
    assert!(raffle.raffle_play(BOB, 3, 0).is_ok());
    let drawn = raffle.raffle_draw(BOB, 0, 0).unwrap();
    assert_eq!(drawn.settlement, Some(Transfer { to: beneficiary, value: 13 }));

    assert_eq!(
        raffle.raffle_transfer_fund_to_beneficiary(false),
        Err((Error::TransferFailed, TransferFailed {}))
    );
    assert_eq!(raffle.raffle_getdonation_balance(), 13);
    assert_eq!(raffle.raffle_settlement(), Some(Transfer { to: beneficiary, value: 13 }));

    assert_eq!(raffle.raffle_transfer_fund_to_beneficiary(true), Ok(()));
    assert_eq!(raffle.raffle_getdonation_balance(), 0);
    assert_eq!(raffle.raffle_settlement(), None);

    // With nothing left, the host's answer plays no part.
    assert_eq!(raffle.raffle_transfer_fund_to_beneficiary(false), Ok(()));
    assert_eq!(raffle.raffle_transfer_fund_to_beneficiary(true), Ok(()));
    assert_eq!(raffle.raffle_getdonation_balance(), 0);
}

#[test]
fn the_balance_is_what_came_in_less_what_went_out() {
    let owner: AccountId = [0xAA; 32];
    let beneficiary: AccountId = [0xBB; 32];
    let config =
        Config { min_stake: 1, max_stake: 10, min_players: 2, lock_duration: 0, max_winners: 1 };
    let mut raffle = RaffleTkt::new(owner, beneficiary, config);
    let mut came_in: u128 = 0;
    let mut went_out: u128 = 0;

    assert!(raffle.raffle_play(ALICE, 4, 0).is_ok());
    came_in += 4;
    assert!(raffle.raffle_play(BOB, 11, 0).is_err());
    assert!(raffle.raffle_play(BOB, 2, 0).is_ok());
    came_in += 2;
    assert_eq!(raffle.raffle_getdonation_balance(), came_in - went_out);

    // Nothing is due while the game is open.
    assert_eq!(raffle.raffle_settlement(), None);
    assert_eq!(raffle.raffle_transfer_fund_to_beneficiary(true), Ok(()));
    assert_eq!(raffle.raffle_getdonation_balance(), 6);

    let drawn = raffle.raffle_draw(ALICE, 0, 1).unwrap();
    assert_eq!(drawn.settlement, Some(Transfer { to: beneficiary, value: 6 }));
    assert!(raffle.raffle_transfer_fund_to_beneficiary(false).is_err());
    assert_eq!(raffle.raffle_getdonation_balance(), came_in - went_out);
    assert_eq!(raffle.raffle_transfer_fund_to_beneficiary(true), Ok(()));
    went_out += 6;
    assert_eq!(raffle.raffle_getdonation_balance(), came_in - went_out);

    // A late entry is collected and settled like the others.
    assert!(raffle.raffle_play(CHARLIE, 3, 5).is_ok());
    came_in += 3;
    assert_eq!(raffle.raffle_getdonation_balance(), came_in - went_out);
    assert_eq!(raffle.raffle_settlement(), Some(Transfer { to: beneficiary, value: 3 }));
    assert_eq!(raffle.raffle_transfer_fund_to_beneficiary(true), Ok(()));
    went_out += 3;
    assert_eq!(raffle.raffle_getdonation_balance(), 0);
    assert_eq!(came_in, went_out);
}
