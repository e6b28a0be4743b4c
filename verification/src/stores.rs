//! The card stores of one player (hand, deck, tomb), the energy pool and the
//! main character.

use vstd::prelude::*;
use vstd::multiset::Multiset;

verus! {

/// `i` is the place of the first `card_id` in `cards`.
pub open spec fn is_first_place(cards: Seq<i32>, card_id: i32, i: int) -> bool {
    &&& 0 <= i < cards.len()
    &&& cards[i] == card_id
    &&& forall|j: int| 0 <= j < i ==> cards[j] != card_id
}

/// The place of the first `card_id` in `cards`, which hold it.
pub open spec fn first_place(cards: Seq<i32>, card_id: i32) -> int {
    choose|i: int| is_first_place(cards, card_id, i)
}

/// `cards` without the first `card_id`; `cards` itself where they hold none.
pub open spec fn without_first(cards: Seq<i32>, card_id: i32) -> Seq<i32> {
    if cards.contains(card_id) {
        cards.remove(first_place(cards, card_id))
    } else {
        cards
    }
}

/// Each of `wanted` can be taken out of `cards` in turn, a card that occurs
/// twice in `wanted` twice.
pub open spec fn holds_all(cards: Seq<i32>, wanted: Seq<i32>) -> bool
    decreases wanted.len(),
{
    if wanted.len() == 0 {
        true
    } else {
        holds_all(cards, wanted.drop_last()) && without_all(cards, wanted.drop_last()).contains(
            wanted.last(),
        )
    }
}

/// `cards` after each of `wanted` has been taken out in turn, the first
/// occurrence each time.
pub open spec fn without_all(cards: Seq<i32>, wanted: Seq<i32>) -> Seq<i32>
    decreases wanted.len(),
{
    if wanted.len() == 0 {
        cards
    } else {
        without_first(without_all(cards, wanted.drop_last()), wanted.last())
    }
}

/// Finds the first `card_id` in `cards`.
pub fn find_card(cards: &Vec<i32>, card_id: i32) -> (r: Option<usize>)
    ensures
        r.is_some() == cards@.contains(card_id),
        r.is_some() ==> r.unwrap() == first_place(cards@, card_id) && is_first_place(
            cards@,
            card_id,
            r.unwrap() as int,
        ),
{
    let mut i: usize = 0;
    while i < cards.len()
        invariant
            i <= cards@.len(),
            forall|j: int| 0 <= j < i ==> cards@[j] != card_id,
        decreases cards@.len() - i,
    {
        if cards[i] == card_id {
            proof {
                assert(is_first_place(cards@, card_id, i as int));
                let f = first_place(cards@, card_id);
                assert(is_first_place(cards@, card_id, f));
            }
            return Some(i);
        }
        i += 1;
    }
    None
}

/// The cards a player holds, in the order in which they came.
#[derive(Clone, Debug)]
pub struct Hand {
    pub cards: Vec<i32>,
}

impl View for Hand {
    type V = Seq<i32>;

    open spec fn view(&self) -> Seq<i32> {
        self.cards@
    }
}

impl Hand {
    pub fn new(cards: Vec<i32>) -> (r: Self)
        ensures
            r@ == cards@,
    {
        Hand { cards }
    }

    pub fn count(&self) -> (r: usize)
        ensures
            r == self@.len(),
    {
        self.cards.len()
    }

    /// Whether the hand holds `card_id`.
    pub fn holds(&self, card_id: i32) -> (r: bool)
        ensures
            r == self@.contains(card_id),
    {
        find_card(&self.cards, card_id).is_some()
    }

    /// Whether each of `wanted` can be taken from the hand in turn.
    pub fn holds_every(&self, wanted: &Vec<i32>) -> (r: bool)
        ensures
            r == holds_all(self@, wanted@),
    {
        let mut rest: Vec<i32> = self.cards.clone();
        assert(rest@ =~= self@);
        let mut i: usize = 0;
        while i < wanted.len()
            invariant
                i <= wanted@.len(),
                holds_all(self@, wanted@.take(i as int)),
                rest@ == without_all(self@, wanted@.take(i as int)),
            decreases wanted@.len() - i,
        {
            assert(wanted@.take(i + 1).drop_last() =~= wanted@.take(i as int));
            match find_card(&rest, wanted[i]) {
                Some(place) => {
                    rest.remove(place);
                },
                None => {
                    proof {
                        if holds_all(self@, wanted@) {
                            lemma_holds_all_prefix(self@, wanted@, i + 1);
                        }
                    }
                    return false;
                },
            }
            i += 1;
        }
        assert(wanted@.take(i as int) =~= wanted@);
        true
    }

    /// Takes the first `card_id` out of the hand. Returns whether the hand
    /// held one.
    pub fn use_card(&mut self, card_id: i32) -> (r: bool)
        ensures
            r == old(self)@.contains(card_id),
            final(self)@ == without_first(old(self)@, card_id),
    {
        match find_card(&self.cards, card_id) {
            Some(place) => {
                self.cards.remove(place);
                true
            },
            None => false,
        }
    }

    /// Takes each of `wanted` out of the hand in turn, passing over a card
    /// the hand no longer holds.
    pub fn use_cards(&mut self, wanted: &Vec<i32>)
        ensures
            final(self)@ == without_all(old(self)@, wanted@),
    {
        let mut i: usize = 0;
        while i < wanted.len()
            invariant
                i <= wanted@.len(),
                self@ == without_all(old(self)@, wanted@.take(i as int)),
            decreases wanted@.len() - i,
        {
            assert(wanted@.take(i + 1).drop_last() =~= wanted@.take(i as int));
            self.use_card(wanted[i]);
            i += 1;
        }
        assert(wanted@.take(i as int) =~= wanted@);
    }

    /// Adds `cards` behind those in the hand.
    pub fn add_cards(&mut self, cards: &Vec<i32>)
        ensures
            final(self)@ == old(self)@ + cards@,
    {
        let mut i: usize = 0;
        while i < cards.len()
            invariant
                i <= cards@.len(),
                self@ == old(self)@ + cards@.take(i as int),
            decreases cards@.len() - i,
        {
            self.cards.push(cards[i]);
            assert(old(self)@ + cards@.take(i + 1) =~= (old(self)@ + cards@.take(i as int)).push(
                cards@[i as int],
            ));
            i += 1;
        }
        assert(cards@.take(i as int) =~= cards@);
    }
}

/// Where the hand holds all of `wanted`, it holds all of each of its
/// prefixes.
pub proof fn lemma_holds_all_prefix(cards: Seq<i32>, wanted: Seq<i32>, n: int)
    requires
        0 <= n <= wanted.len(),
        holds_all(cards, wanted),
    ensures
        holds_all(cards, wanted.take(n)),
    decreases wanted.len(),
{
    if n == wanted.len() {
        assert(wanted.take(n) =~= wanted);
    } else {
        lemma_holds_all_prefix(cards, wanted.drop_last(), n);
        assert(wanted.drop_last().take(n) =~= wanted.take(n));
    }
}

/// How many cards a draw of `count` takes from a deck of `available`.
pub open spec fn drawn_count(available: nat, count: i32) -> int {
    if count <= 0 {
        0
    } else if count >= available {
        available as int
    } else {
        count as int
    }
}

/// The cards a player draws from, the next card in front.
#[derive(Clone, Debug)]
pub struct Deck {
    pub cards: Vec<i32>,
}

impl View for Deck {
    type V = Seq<i32>;

    open spec fn view(&self) -> Seq<i32> {
        self.cards@
    }
}

impl Deck {
    pub fn new(cards: Vec<i32>) -> (r: Self)
        ensures
            r@ == cards@,
    {
        Deck { cards }
    }

    pub fn count(&self) -> (r: usize)
        ensures
            r == self@.len(),
    {
        self.cards.len()
    }

    /// Draws `count` cards from the front of the deck, or as many as it
    /// holds, and returns them in the order drawn.
    pub fn draw_cards(&mut self, count: i32) -> (r: Vec<i32>)
        ensures
            r@ == old(self)@.take(drawn_count(old(self)@.len(), count)),
            final(self)@ == old(self)@.skip(drawn_count(old(self)@.len(), count)),
    {
        let mut drawn: Vec<i32> = Vec::new();
        let mut left: i32 = count;
        while left > 0 && self.cards.len() > 0
            invariant
                left <= count,
                count <= 0 ==> left == count,
                count > 0 ==> left >= 0,
                drawn@.len() + self@.len() == old(self)@.len(),
                count > 0 ==> drawn@.len() == count - left,
                count <= 0 ==> drawn@.len() == 0,
                drawn@ == old(self)@.take(drawn@.len() as int),
                self@ == old(self)@.skip(drawn@.len() as int),
            decreases self@.len(),
        {
            let ghost taken = drawn@.len() as int;
            let card = self.cards.remove(0);
            drawn.push(card);
            left -= 1;
            assert(card == old(self)@[taken]);
            assert(drawn@ =~= old(self)@.take(taken + 1));
            assert(self@ =~= old(self)@.skip(taken + 1));
        }
        drawn
    }

    /// Puts `cards` under the deck, in their order.
    pub fn put_cards(&mut self, cards: &Vec<i32>)
        ensures
            final(self)@ == old(self)@ + cards@,
    {
        let mut i: usize = 0;
        while i < cards.len()
            invariant
                i <= cards@.len(),
                self@ == old(self)@ + cards@.take(i as int),
            decreases cards@.len() - i,
        {
            self.cards.push(cards[i]);
            assert(old(self)@ + cards@.take(i + 1) =~= (old(self)@ + cards@.take(i as int)).push(
                cards@[i as int],
            ));
            i += 1;
        }
        assert(cards@.take(i as int) =~= cards@);
    }
}

/// The spent cards and dead units of a player. Their order means nothing.
#[derive(Clone, Debug)]
pub struct Tomb {
    pub cards: Vec<i32>,
}

impl View for Tomb {
    type V = Multiset<i32>;

    open spec fn view(&self) -> Multiset<i32> {
        self.cards@.to_multiset()
    }
}

/// The cards of `list` as a collection without order.
pub open spec fn as_tomb(list: Seq<i32>) -> Multiset<i32> {
    list.to_multiset()
}

/// The tomb after the card a death judgment reported, if any, was added.
pub open spec fn buried(tomb: Multiset<i32>, report: Option<i32>) -> Multiset<i32> {
    match report {
        Some(card_id) => tomb.insert(card_id),
        None => tomb,
    }
}

impl Tomb {
    pub fn new() -> (r: Self)
        ensures
            r@ == Multiset::<i32>::empty(),
    {
        let r = Tomb { cards: Vec::new() };
        proof {
            r.cards@.to_multiset_ensures();
            assert(r@.len() == 0);
            assert(r@ =~= Multiset::<i32>::empty());
        }
        r
    }

    pub fn count(&self) -> (r: usize)
        ensures
            r == self@.len(),
    {
        proof {
            self.cards@.to_multiset_ensures();
        }
        self.cards.len()
    }

    /// How often `card_id` lies in the tomb.
    pub fn count_of(&self, card_id: i32) -> (r: usize)
        ensures
            r == self@.count(card_id),
    {
        let mut n: usize = 0;
        let mut i: usize = 0;
        proof {
            self.cards@.take(0).to_multiset_ensures();
            assert(!self.cards@.take(0).contains(card_id));
        }
        while i < self.cards.len()
            invariant
                i <= self.cards@.len(),
                n <= i,
                n == self.cards@.take(i as int).to_multiset().count(card_id),
            decreases self.cards@.len() - i,
        {
            proof {
                assert(self.cards@.take(i + 1) =~= self.cards@.take(i as int).push(self.cards@[i as int]));
                self.cards@.take(i as int).to_multiset_ensures();
            }
            if self.cards[i] == card_id {
                n += 1;
            }
            i += 1;
        }
        assert(self.cards@.take(i as int) =~= self.cards@);
        n
    }

    /// Adds one card to the tomb.
    pub fn add_used_card_to_tomb(&mut self, card_id: i32)
        ensures
            final(self)@ == old(self)@.insert(card_id),
    {
        proof {
            self.cards@.to_multiset_ensures();
        }
        self.cards.push(card_id);
    }

    /// Adds the card of a unit that a death judgment reported, if any.
    pub fn bury(&mut self, report: Option<i32>)
        ensures
            final(self)@ == buried(old(self)@, report),
    {
        match report {
            Some(card_id) => self.add_used_card_to_tomb(card_id),
            None => {},
        }
    }

    /// Adds every card of `dead_unit_list` to the tomb.
    pub fn add_dead_unit_list_to_tomb(&mut self, dead_unit_list: &Vec<i32>)
        ensures
            final(self)@ == old(self)@.add(as_tomb(dead_unit_list@)),
    {
        let mut i: usize = 0;
        proof {
            dead_unit_list@.take(0).to_multiset_ensures();
            assert(dead_unit_list@.take(0).to_multiset().len() == 0);
            assert(self@ =~= old(self)@.add(as_tomb(dead_unit_list@.take(0))));
        }
        while i < dead_unit_list.len()
            invariant
                i <= dead_unit_list@.len(),
                self@ == old(self)@.add(as_tomb(dead_unit_list@.take(i as int))),
            decreases dead_unit_list@.len() - i,
        {
            proof {
                assert(dead_unit_list@.take(i + 1) =~= dead_unit_list@.take(i as int).push(
                    dead_unit_list@[i as int],
                ));
                dead_unit_list@.take(i as int).to_multiset_ensures();
            }
            let ghost before = self@;
            self.add_used_card_to_tomb(dead_unit_list[i]);
            assert(self@ =~= old(self)@.add(as_tomb(dead_unit_list@.take(i + 1))));
            i += 1;
        }
        assert(dead_unit_list@.take(i as int) =~= dead_unit_list@);
    }
}

/// The energy count after a grant of `amount`: a grant that is not positive
/// changes nothing, and the count stops at the largest number it can hold.
pub open spec fn energy_after_grant(count: i32, amount: i32) -> i32 {
    if amount <= 0 {
        count
    } else if count + amount > i32::MAX {
        i32::MAX
    } else {
        (count + amount) as i32
    }
}

/// The field energy of one player. It is never negative.
#[derive(Clone, Copy, Debug, PartialEq, Eq, Structural)]
pub struct EnergyPool {
    pub count: i32,
}

impl EnergyPool {
    pub open spec fn wf(&self) -> bool {
        self.count >= 0
    }

    pub fn new() -> (r: Self)
        ensures
            r.count == 0,
            r.wf(),
    {
        EnergyPool { count: 0 }
    }

    pub fn get_energy_count(&self) -> (r: i32)
        ensures
            r == self.count,
    {
        self.count
    }

    /// Whether the pool holds at least `required` energy.
    pub fn has_at_least(&self, required: i32) -> (r: bool)
        ensures
            r == (self.count >= required),
    {
        self.count >= required
    }

    /// Grants `amount` energy.
    pub fn add_energy(&mut self, amount: i32)
        requires
            old(self).wf(),
        ensures
            final(self).count == energy_after_grant(old(self).count, amount),
            final(self).wf(),
    {
        if amount > 0 {
            if self.count > i32::MAX - amount {
                self.count = i32::MAX;
            } else {
                self.count = self.count + amount;
            }
        }
    }

    /// Spends `amount` energy where the pool holds that much and the amount
    /// is not negative. Returns whether it did.
    pub fn remove_energy(&mut self, amount: i32) -> (r: bool)
        requires
            old(self).wf(),
        ensures
            r == (0 <= amount <= old(self).count),
            r ==> final(self).count == old(self).count - amount,
            !r ==> final(self).count == old(self).count,
            final(self).wf(),
    {
        if amount < 0 || amount > self.count {
            return false;
        }
        self.count = self.count - amount;
        true
    }
}

/// Whether a main character still stands.
#[derive(Clone, Copy, Debug, PartialEq, Eq, Structural)]
pub enum StatusMainCharacterEnum {
    Survival,
    Death,
}

/// The life pool of a player, apart from the units.
#[derive(Clone, Copy, Debug, PartialEq, Eq, Structural)]
pub struct MainCharacter {
    pub health_point: i32,
    pub status: StatusMainCharacterEnum,
}

impl MainCharacter {
    /// The main character after losing health to `damage`.
    pub open spec fn damaged(self, damage: i32) -> MainCharacter {
        MainCharacter { health_point: crate::unit::health_after(self.health_point, damage), ..self }
    }

    /// The main character after the check whether it has fallen.
    pub open spec fn checked(self) -> MainCharacter {
        if self.health_point <= 0 {
            MainCharacter { status: StatusMainCharacterEnum::Death, ..self }
        } else {
            self
        }
    }

    /// A main character with `health_point` health: standing, unless that is
    /// no health at all.
    pub open spec fn fresh(health_point: i32) -> MainCharacter {
        (MainCharacter { health_point, status: StatusMainCharacterEnum::Survival }).checked()
    }

    pub fn new(health_point: i32) -> (r: Self)
        ensures
            r == MainCharacter::fresh(health_point),
    {
        if health_point <= 0 {
            MainCharacter { health_point, status: StatusMainCharacterEnum::Death }
        } else {
            MainCharacter { health_point, status: StatusMainCharacterEnum::Survival }
        }
    }

    /// Takes `damage` from the health pool.
    pub fn apply_damage(&mut self, damage: i32)
        ensures
            *final(self) == old(self).damaged(damage),
    {
        self.health_point = crate::unit::remaining_health(self.health_point, damage);
    }

    /// Marks the main character as fallen when no health is left, and returns
    /// its status.
    pub fn check_lethality(&mut self) -> (r: StatusMainCharacterEnum)
        ensures
            *final(self) == old(self).checked(),
            r == final(self).status,
    {
        if self.health_point <= 0 {
            self.status = StatusMainCharacterEnum::Death;
        }
        self.status
    }
}

} // verus!
