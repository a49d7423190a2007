use radicex::assets::AdminBadge;
use radicex::assets::CoinBucket;
use radicex::assets::GameError;
use radicex::assets::TicketBucket;
use radicex::assets::TicketProof;
use radicex::assets::COIN;
use radicex::assets::PRIZE_AMOUNT;
use radicex::assets::REINIT_PRICE;
use radicex::game::Radicex;

const COIN_KIND: u64 = 11;
const TICKET_KIND: u64 = 22;
const ADMIN_KIND: u64 = 33;

fn fresh() -> (Radicex, AdminBadge) {
    Radicex::instantiate(COIN_KIND, TICKET_KIND, ADMIN_KIND)
}

fn coins(amount: u128) -> CoinBucket {
    CoinBucket { kind: COIN_KIND, amount }
}

fn proof_of(id: u64) -> TicketProof {
    TicketProof { kind: TICKET_KIND, ids: vec![id] }
}

/// A random word that yields the given die value on its very first 3-bit
/// group.
fn draw_for(die: i8) -> u128 {
    if die == 1 {
        0x8
    } else {
        (die - 1) as u128
    }
}

fn dice(house: i8, player: i8) -> Vec<u128> {
    vec![draw_for(house), draw_for(player)]
}

#[test]
fn instantiate_starts_empty() {
    let (game, badge) = fresh();
    assert_eq!(game.balance(), 0);
    assert_eq!(game.nfts_generated(), 0);
    assert_eq!(badge.kind, ADMIN_KIND);
}

#[test]
fn buy_ticket_exact_price_yields_level_ten_and_no_change() {
    let (mut game, _badge) = fresh();
    let (token, change) = game.buy_ticket(coins(COIN)).unwrap();
    assert_eq!(change.amount, 0);
    assert_eq!(token.id, 1);
    assert_eq!(token.kind, TICKET_KIND);
    assert_eq!(game.balance(), COIN);
    let ticket = game.read(1).unwrap();
    assert_eq!(ticket.level, 10);
    assert_eq!(ticket.last_throw, "New Ticket, no play history");
}

#[test]
fn buy_ticket_overpayment_returns_change() {
    let (mut game, _badge) = fresh();
    let (_token, change) = game.buy_ticket(coins(COIN + COIN / 2)).unwrap();
    assert_eq!(change.amount, COIN / 2);
    assert_eq!(change.kind, COIN_KIND);
    assert_eq!(game.balance(), COIN);
}

#[test]
fn buy_ticket_rejects_short_or_foreign_payment() {
    let (mut game, _badge) = fresh();
    let (e, refund) = game.buy_ticket(coins(COIN - 1)).unwrap_err();
    assert_eq!(e, GameError::InsufficientFunds);
    assert_eq!(refund.amount, COIN - 1);
    let (e, _refund) = game
        .buy_ticket(CoinBucket { kind: 99, amount: COIN })
        .unwrap_err();
    assert_eq!(e, GameError::InvalidAsset);
    assert_eq!(game.balance(), 0);
    assert_eq!(game.nfts_generated(), 0);
}

#[test]
fn deposit_exact_amount_is_refused() {
    let (mut game, _badge) = fresh();
    let (e, refund) = game.deposit(5 * COIN, coins(5 * COIN)).unwrap_err();
    assert_eq!(e, GameError::InsufficientFunds);
    assert_eq!(refund.amount, 5 * COIN);
    assert_eq!(game.balance(), 0);
}

#[test]
fn deposit_takes_amount_and_returns_surplus() {
    let (mut game, _badge) = fresh();
    let change = game.deposit(5 * COIN, coins(6 * COIN)).unwrap();
    assert_eq!(change.amount, COIN);
    assert_eq!(change.kind, COIN_KIND);
    assert_eq!(game.balance(), 5 * COIN);
}

#[test]
fn deposit_rejects_foreign_coin() {
    let (mut game, _badge) = fresh();
    let (e, _refund) = game
        .deposit(1, CoinBucket { kind: 99, amount: 5 })
        .unwrap_err();
    assert_eq!(e, GameError::InvalidAsset);
    assert_eq!(game.balance(), 0);
}

#[test]
fn withdrawal_all_needs_the_admin_badge() {
    let (mut game, badge) = fresh();
    game.deposit(5 * COIN, coins(6 * COIN)).unwrap();
    let e = game.withdrawal_all(&AdminBadge { kind: 99 }).unwrap_err();
    assert_eq!(e, GameError::Unauthorized);
    assert_eq!(game.balance(), 5 * COIN);
    let payout = game.withdrawal_all(&badge).unwrap();
    assert_eq!(payout.amount, 5 * COIN);
    assert_eq!(payout.kind, COIN_KIND);
    assert_eq!(game.balance(), 0);
}

#[test]
fn admin_ticket_needs_the_admin_badge() {
    let (mut game, badge) = fresh();
    let e = game.admin_ticket(&AdminBadge { kind: 99 }).unwrap_err();
    assert_eq!(e, GameError::Unauthorized);
    assert_eq!(game.nfts_generated(), 0);
    let token = game.admin_ticket(&badge).unwrap();
    assert_eq!(token.id, 1);
    assert_eq!(game.nfts_generated(), 1);
    assert_eq!(game.read(1).unwrap().level, 10);
    // a free mint moves no coin
    assert_eq!(game.balance(), 0);
}

#[test]
fn play_round_applies_delta_and_writes_description() {
    let (mut game, _badge) = fresh();
    game.buy_ticket(coins(COIN)).unwrap();
    game.play_round(&proof_of(1), &dice(3, 5)).unwrap();
    let ticket = game.read(1).unwrap();
    assert_eq!(ticket.level, 12);
    assert_eq!(ticket.last_throw, "House 3, Player 5, New Lvl 12(+2)");
    // vault untouched by a round
    assert_eq!(game.balance(), COIN);
}

#[test]
fn play_round_tie_is_deterministic() {
    let (mut game, _badge) = fresh();
    game.buy_ticket(coins(COIN)).unwrap();
    game.play_round(&proof_of(1), &dice(3, 3)).unwrap();
    let ticket = game.read(1).unwrap();
    assert_eq!(ticket.level, 9);
    assert_eq!(ticket.last_throw, "House 3, Player 3, New Lvl 9(-1)");
}

#[test]
fn play_round_validates_the_proof() {
    let (mut game, _badge) = fresh();
    game.buy_ticket(coins(COIN)).unwrap();
    let two = TicketProof { kind: TICKET_KIND, ids: vec![1, 1] };
    assert_eq!(
        game.play_round(&two, &dice(1, 6)).unwrap_err(),
        GameError::InvalidProofCardinality
    );
    let foreign = TicketProof { kind: 99, ids: vec![1] };
    assert_eq!(
        game.play_round(&foreign, &dice(1, 6)).unwrap_err(),
        GameError::InvalidProof
    );
    assert_eq!(
        game.play_round(&proof_of(7), &dice(1, 6)).unwrap_err(),
        GameError::NotFound
    );
    assert_eq!(game.read(1).unwrap().level, 10);
}

#[test]
fn play_round_rejected_at_both_boundaries() {
    let (mut game, _badge) = fresh();
    game.buy_ticket(coins(COIN)).unwrap();
    // two losing rounds of delta -5 drive the level from 10 to 0
    game.play_round(&proof_of(1), &dice(6, 1)).unwrap();
    game.play_round(&proof_of(1), &dice(6, 1)).unwrap();
    assert_eq!(game.read(1).unwrap().level, 0);
    assert_eq!(
        game.play_round(&proof_of(1), &dice(1, 6)).unwrap_err(),
        GameError::NotPlayable
    );
    assert_eq!(game.read(1).unwrap().level, 0);
    // reinitialize, then three winning rounds of delta +5 reach 25
    game.reinit_ticket(&proof_of(1), coins(REINIT_PRICE)).unwrap();
    for _ in 0..3 {
        game.play_round(&proof_of(1), &dice(1, 6)).unwrap();
    }
    assert_eq!(game.read(1).unwrap().level, 25);
    assert_eq!(
        game.play_round(&proof_of(1), &dice(1, 6)).unwrap_err(),
        GameError::NotPlayable
    );
    assert_eq!(game.read(1).unwrap().level, 25);
}

#[test]
fn redeem_prize_pays_five_coins_and_resets_the_ticket() {
    let (mut game, _badge) = fresh();
    game.buy_ticket(coins(COIN)).unwrap();
    for _ in 0..3 {
        game.play_round(&proof_of(1), &dice(1, 6)).unwrap();
    }
    // the vault holds only the ticket price so far: redemption is refused
    assert_eq!(
        game.redeem_prize(&proof_of(1)).unwrap_err(),
        GameError::InsufficientFunds
    );
    game.deposit(5 * COIN, coins(6 * COIN)).unwrap();
    let before = game.balance();
    let payout = game.redeem_prize(&proof_of(1)).unwrap();
    assert_eq!(payout.amount, PRIZE_AMOUNT);
    assert_eq!(payout.kind, COIN_KIND);
    assert_eq!(game.balance(), before - PRIZE_AMOUNT);
    let ticket = game.read(1).unwrap();
    assert_eq!(ticket.level, 0);
    assert_eq!(ticket.last_throw, "Just redeemed a level 25 Ticket");
}

#[test]
fn redeem_prize_refused_below_top_level() {
    let (mut game, _badge) = fresh();
    game.buy_ticket(coins(COIN)).unwrap();
    game.deposit(5 * COIN, coins(6 * COIN)).unwrap();
    assert_eq!(
        game.redeem_prize(&proof_of(1)).unwrap_err(),
        GameError::NotRedeemable
    );
    assert_eq!(game.read(1).unwrap().level, 10);
}

#[test]
fn reinit_ticket_takes_discounted_price_exactly() {
    let (mut game, _badge) = fresh();
    game.buy_ticket(coins(COIN)).unwrap();
    game.play_round(&proof_of(1), &dice(6, 1)).unwrap();
    game.play_round(&proof_of(1), &dice(6, 1)).unwrap();
    assert_eq!(game.read(1).unwrap().level, 0);
    let before = game.balance();
    let change = game.reinit_ticket(&proof_of(1), coins(COIN)).unwrap();
    assert_eq!(change.amount, COIN - REINIT_PRICE);
    assert_eq!(game.balance(), before + REINIT_PRICE);
    let ticket = game.read(1).unwrap();
    assert_eq!(ticket.level, 10);
    assert_eq!(ticket.last_throw, "Just reinitialized the Ticket");
}

#[test]
fn reinit_ticket_refused_while_playable() {
    let (mut game, _badge) = fresh();
    game.buy_ticket(coins(COIN)).unwrap();
    let (e, refund) = game
        .reinit_ticket(&proof_of(1), coins(REINIT_PRICE))
        .unwrap_err();
    assert_eq!(e, GameError::StillPlayable);
    assert_eq!(refund.amount, REINIT_PRICE);
    assert_eq!(game.read(1).unwrap().level, 10);
    let (e, _refund) = game
        .reinit_ticket(&proof_of(1), coins(REINIT_PRICE - 1))
        .unwrap_err();
    assert_eq!(e, GameError::InsufficientFunds);
}

#[test]
fn burn_ticket_destroys_the_record_for_good() {
    let (mut game, _badge) = fresh();
    game.buy_ticket(coins(COIN)).unwrap();
    game.buy_ticket(coins(COIN)).unwrap();
    let (e, _refund) = game
        .burn_ticket(TicketBucket { kind: 99, ids: vec![1] })
        .unwrap_err();
    assert_eq!(e, GameError::InvalidAsset);
    let (e, _refund) = game
        .burn_ticket(TicketBucket { kind: TICKET_KIND, ids: vec![1, 2] })
        .unwrap_err();
    assert_eq!(e, GameError::InvalidProofCardinality);
    game.burn_ticket(TicketBucket { kind: TICKET_KIND, ids: vec![1] })
        .unwrap();
    assert_eq!(game.read(1).unwrap_err(), GameError::NotFound);
    // the neighbour and the mint counter survive
    assert_eq!(game.read(2).unwrap().level, 10);
    assert_eq!(game.nfts_generated(), 2);
    // a second burn of the same id finds nothing
    let (e, _refund) = game
        .burn_ticket(TicketBucket { kind: TICKET_KIND, ids: vec![1] })
        .unwrap_err();
    assert_eq!(e, GameError::NotFound);
}

#[test]
fn read_unknown_id_is_not_found() {
    let (game, _badge) = fresh();
    assert_eq!(game.read(0).unwrap_err(), GameError::NotFound);
    assert_eq!(game.read(1).unwrap_err(), GameError::NotFound);
}

#[test]
fn levels_stay_in_band_through_a_long_session() {
    let (mut game, _badge) = fresh();
    game.buy_ticket(coins(COIN)).unwrap();
    let mut state: u64 = 7;
    for _ in 0..200 {
        state = state
            .wrapping_mul(6364136223846793005)
            .wrapping_add(1442695040888963407);
        let house = 1 + (state >> 33) % 6;
        let player = 1 + (state >> 13) % 6;
        let level = game.read(1).unwrap().level;
        let r = game.play_round(&proof_of(1), &dice(house as i8, player as i8));
        if level == 0 || level == 25 {
            assert_eq!(r.unwrap_err(), GameError::NotPlayable);
            break;
        }
        r.unwrap();
        let now = game.read(1).unwrap().level;
        assert!((0..=25).contains(&now));
    }
}
