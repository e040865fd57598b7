use tasktree::{
    BudgetRefusal, BudgetResource, ResourceActual, ResourceBudget, ResourceComposition,
    ResourceReservation, TokenBudget, Tokens,
};

#[test]
fn tokens_use_checked_arithmetic_and_round_trip_as_text() {
    assert_eq!(
        Tokens::new(2).checked_add(Tokens::new(3)),
        Some(Tokens::new(5))
    );
    assert_eq!(Tokens::new(u64::MAX).checked_add(Tokens::new(1)), None);
    assert_eq!(
        Tokens::new(3).checked_sub(Tokens::new(3)),
        Some(Tokens::zero())
    );
    assert_eq!(Tokens::new(2).checked_sub(Tokens::new(3)), None);
    assert_eq!(
        Tokens::checked_sum(&[Tokens::new(1), Tokens::new(2), Tokens::new(3)]),
        Some(Tokens::new(6))
    );
    assert_eq!(
        Tokens::checked_sum(&[Tokens::new(u64::MAX), Tokens::new(1)]),
        None
    );
    assert_eq!(Tokens::checked_sum(&[]), Some(Tokens::zero()));
    assert!(Tokens::zero().is_zero());
    assert_eq!("42".parse::<Tokens>().expect("parses"), Tokens::new(42));
    assert!("-1".parse::<Tokens>().is_err());
    assert_eq!(Tokens::new(7).to_string(), "7");
}

#[test]
fn token_text_follows_the_unsigned_decimal_grammar() {
    assert_eq!("+17".parse::<Tokens>().expect("plus sign"), Tokens::new(17));
    assert_eq!(
        "18446744073709551615".parse::<Tokens>().expect("max"),
        Tokens::new(u64::MAX)
    );
    assert!("18446744073709551616".parse::<Tokens>().is_err());
    assert!("".parse::<Tokens>().is_err());
    assert!("+".parse::<Tokens>().is_err());
    assert!(" 1".parse::<Tokens>().is_err());
    assert_eq!(Tokens::new(u64::MAX).to_string(), "18446744073709551615");
    assert_eq!(Tokens::new(0).to_string(), "0");
    assert_eq!(Tokens::default(), Tokens::zero());
    assert_eq!(Tokens::new(9).get(), 9);
}

#[test]
fn a_zero_ceiling_is_a_budget_and_attenuates_to_zero() {
    let budget = TokenBudget::new(Tokens::zero());
    assert_eq!(budget.remaining(), Tokens::zero());
    assert_eq!(budget.attenuate(), TokenBudget::new(Tokens::zero()));
    let (parent, child) = budget.reserve_remaining();
    assert_eq!(parent.remaining(), Tokens::zero());
    assert_eq!(child.ceiling(), Tokens::zero());
}

#[test]
fn attenuation_shows_the_remaining_pool_and_leaves_the_parent_unchanged() {
    let (parent, _) = TokenBudget::new(Tokens::new(100))
        .reserve(Tokens::new(30))
        .expect("fits");
    let child = parent.attenuate();
    assert_eq!(child.ceiling(), Tokens::new(70));
    assert_eq!(child.reserved(), Tokens::zero());
    assert_eq!(parent.reserved(), Tokens::new(30));
    assert_eq!(parent.remaining(), Tokens::new(70));
}

#[test]
fn a_reservation_shrinks_the_pool_by_exactly_the_share() {
    let budget = TokenBudget::new(Tokens::new(100));
    let (parent, child) = budget.reserve(Tokens::new(40)).expect("fits");
    assert_eq!(parent.ceiling(), Tokens::new(100));
    assert_eq!(parent.reserved(), Tokens::new(40));
    assert_eq!(parent.remaining(), Tokens::new(60));
    assert_eq!(child, TokenBudget::new(Tokens::new(40)));
}

#[test]
fn a_share_larger_than_the_pool_is_refused_with_exact_numbers() {
    let (parent, _) = TokenBudget::new(Tokens::new(100))
        .reserve(Tokens::new(70))
        .expect("fits");
    assert_eq!(
        parent.reserve(Tokens::new(31)).expect_err("does not fit"),
        BudgetRefusal::Exceeded {
            resource: BudgetResource::Tokens,
            required: 31,
            available: 30,
        }
    );
    assert!(parent.reserve(Tokens::new(30)).is_ok());
}

#[test]
fn reserving_the_remainder_twice_leaves_the_second_child_nothing() {
    let (parent, first) = TokenBudget::new(Tokens::new(10)).reserve_remaining();
    assert_eq!(first.ceiling(), Tokens::new(10));
    let (parent, second) = parent.reserve_remaining();
    assert_eq!(second.ceiling(), Tokens::zero());
    assert_eq!(parent.remaining(), Tokens::zero());
}

#[test]
fn releasing_a_share_restores_the_pool_and_over_release_is_refused() {
    let (parent, _) = TokenBudget::new(Tokens::new(10)).reserve_remaining();
    let restored = parent.release(Tokens::new(4)).expect("within reserved");
    assert_eq!(restored.remaining(), Tokens::new(4));
    assert_eq!(
        restored
            .release(Tokens::new(7))
            .expect_err("more than reserved"),
        BudgetRefusal::Exceeded {
            resource: BudgetResource::Tokens,
            required: 7,
            available: 6,
        }
    );
}

#[test]
fn release_undoes_reserve() {
    let budget = TokenBudget::new(Tokens::new(50)).reserve(Tokens::new(5)).unwrap().0;
    let (reserved, _) = budget.reserve(Tokens::new(12)).unwrap();
    assert_eq!(reserved.release(Tokens::new(12)), Ok(budget));
}

#[test]
fn a_reservation_that_overflows_is_refused_not_wrapped() {
    let (parent, _) = TokenBudget::new(Tokens::new(u64::MAX))
        .reserve(Tokens::new(10))
        .unwrap();
    assert_eq!(
        parent.reserve(Tokens::new(u64::MAX)),
        Err(BudgetRefusal::Exceeded {
            resource: BudgetResource::Tokens,
            required: u64::MAX,
            available: u64::MAX - 10,
        })
    );
}

#[test]
fn budgets_rebuilt_from_parts_keep_reserved_under_the_ceiling() {
    let b = TokenBudget::try_from_parts(Tokens::new(5), Tokens::new(2)).unwrap();
    assert_eq!(b.remaining(), Tokens::new(3));
    assert_eq!(
        TokenBudget::try_from_parts(Tokens::new(5), Tokens::new(6)),
        Err(BudgetRefusal::Exceeded {
            resource: BudgetResource::Tokens,
            required: 6,
            available: 5,
        })
    );
}

#[test]
fn a_budget_displays_what_is_left_of_what_was_authorized() {
    let (parent, _) = TokenBudget::new(Tokens::new(9))
        .reserve(Tokens::new(4))
        .expect("fits");
    assert_eq!(parent.to_string(), "5 of 9 tokens remaining");
}

#[test]
fn sequential_reservations_sum_wall_time_and_tokens() {
    let local = ResourceReservation::new(5, Tokens::new(1));
    let children = [
        ResourceReservation::new(30, Tokens::new(3)),
        ResourceReservation::new(20, Tokens::new(4)),
    ];

    let subtree = local
        .compose_children(ResourceComposition::Sequential, &children)
        .expect("bounded sequential composition");

    assert_eq!(subtree.wall_time_ms(), 55);
    assert_eq!(subtree.tokens(), Tokens::new(8));
}

#[test]
fn parallel_reservations_take_wall_max_but_sum_tokens() {
    let local = ResourceReservation::new(5, Tokens::new(1));
    let children = [
        ResourceReservation::new(30, Tokens::new(3)),
        ResourceReservation::new(20, Tokens::new(4)),
    ];

    let subtree = local
        .compose_children(ResourceComposition::Parallel, &children)
        .expect("bounded parallel composition");

    assert_eq!(subtree.wall_time_ms(), 35);
    assert_eq!(subtree.tokens(), Tokens::new(8));
}

#[test]
fn actuals_retain_elapsed_span_and_total_work() {
    let local = ResourceActual::new(5, Tokens::new(1));
    let children = [
        ResourceActual::new(30, Tokens::new(3)),
        ResourceActual::new(20, Tokens::new(4)),
    ];

    let subtree = local
        .compose_children(ResourceComposition::Parallel, &children)
        .expect("bounded actual composition");

    assert_eq!(subtree.wall_span_ms(), 35);
    assert_eq!(subtree.wall_work_ms(), 55);
    assert_eq!(subtree.tokens(), Tokens::new(8));
}

#[test]
fn composition_refuses_overflow_per_resource() {
    let local = ResourceReservation::new(u64::MAX, Tokens::zero());
    assert_eq!(
        local
            .compose_children(
                ResourceComposition::Sequential,
                &[ResourceReservation::new(1, Tokens::zero())],
            )
            .expect_err("wall-time overflow must fail"),
        BudgetRefusal::Overflow {
            resource: BudgetResource::WallTime,
        }
    );

    let local = ResourceReservation::new(0, Tokens::new(u64::MAX));
    assert_eq!(
        local
            .compose_children(
                ResourceComposition::Parallel,
                &[ResourceReservation::new(0, Tokens::new(1))],
            )
            .expect_err("token overflow must fail"),
        BudgetRefusal::Overflow {
            resource: BudgetResource::Tokens,
        }
    );
}

#[test]
fn actual_work_overflow_is_a_wall_time_refusal() {
    let local = ResourceActual::new(0, Tokens::zero());
    let children = [
        ResourceActual::new(u64::MAX, Tokens::zero()),
        ResourceActual::new(1, Tokens::zero()),
    ];
    assert_eq!(
        local.compose_children(ResourceComposition::Parallel, &children),
        Err(BudgetRefusal::Overflow {
            resource: BudgetResource::WallTime,
        })
    );
    let empty = local
        .compose_children(ResourceComposition::Sequential, &[])
        .unwrap();
    assert_eq!(empty, local);
}

#[test]
fn composed_reservation_and_actual_must_fit_the_budget() {
    let budget = ResourceBudget::new(40, Tokens::new(10));
    assert_eq!(
        budget
            .authorize_reservation(ResourceReservation::new(41, Tokens::new(8)))
            .expect_err("reservation exceeds wall budget"),
        BudgetRefusal::Exceeded {
            resource: BudgetResource::WallTime,
            required: 41,
            available: 40,
        }
    );
    assert_eq!(
        budget
            .authorize_actual(ResourceActual::new(39, Tokens::new(11)))
            .expect_err("actual exceeds token budget"),
        BudgetRefusal::Exceeded {
            resource: BudgetResource::Tokens,
            required: 11,
            available: 10,
        }
    );
    assert!(
        budget
            .authorize_reservation(ResourceReservation::new(40, Tokens::new(10)))
            .is_ok()
    );
}

#[test]
fn the_token_half_of_an_envelope_is_a_trickle_down_budget() {
    let budget = ResourceBudget::new(40, Tokens::new(10));
    assert_eq!(budget.token_budget(), TokenBudget::new(Tokens::new(10)));
    assert_eq!(budget.wall_time_ms(), 40);
    assert_eq!(budget.tokens(), Tokens::new(10));
}

#[test]
fn refusals_name_their_resource() {
    assert_eq!(BudgetResource::WallTime.as_str(), "wall_time");
    assert_eq!(BudgetResource::Tokens.to_string(), "tokens");
    assert_eq!(
        BudgetRefusal::Exceeded {
            resource: BudgetResource::Tokens,
            required: 3,
            available: 2,
        }
        .to_string(),
        "tokens budget exceeded: required 3, available 2"
    );
    assert_eq!(
        BudgetRefusal::Overflow {
            resource: BudgetResource::WallTime,
        }
        .to_string(),
        "wall_time amount overflowed while composing"
    );
}

#[test]
fn composed_actuals_keep_span_within_work() {
    let local = ResourceActual::new(4, Tokens::new(1));
    let children = [
        ResourceActual::new(30, Tokens::new(3)),
        ResourceActual::from_parts(10, 25, Tokens::new(4)),
    ];
    for composition in [ResourceComposition::Sequential, ResourceComposition::Parallel] {
        let subtree = local.compose_children(composition, &children).unwrap();
        assert!(subtree.wall_span_ms() <= subtree.wall_work_ms());
        assert_eq!(subtree.wall_work_ms(), 59);
    }
}

#[test]
fn parallel_children_never_take_longer_than_sequential_ones() {
    let local = ResourceReservation::new(1, Tokens::new(2));
    let children = [
        ResourceReservation::new(7, Tokens::new(1)),
        ResourceReservation::new(9, Tokens::new(1)),
        ResourceReservation::new(3, Tokens::new(1)),
    ];
    let seq = local
        .compose_children(ResourceComposition::Sequential, &children)
        .unwrap();
    let par = local
        .compose_children(ResourceComposition::Parallel, &children)
        .unwrap();
    assert_eq!(seq.wall_time_ms(), 20);
    assert_eq!(par.wall_time_ms(), 10);
    assert_eq!(seq.tokens(), par.tokens());
    // A sequence that overflows can still fit in parallel.
    let huge = [
        ResourceReservation::new(u64::MAX / 2 + 1, Tokens::zero()),
        ResourceReservation::new(u64::MAX / 2 + 1, Tokens::zero()),
    ];
    let none = ResourceReservation::new(0, Tokens::zero());
    assert!(none
        .compose_children(ResourceComposition::Sequential, &huge)
        .is_err());
    assert_eq!(
        none.compose_children(ResourceComposition::Parallel, &huge)
            .unwrap()
            .wall_time_ms(),
        u64::MAX / 2 + 1
    );
}

#[test]
fn token_counts_round_trip_through_their_text() {
    for n in [0u64, 1, 9, 10, 99, 100, 12_345, u64::MAX - 1, u64::MAX] {
        let t = Tokens::new(n);
        assert_eq!(t.to_string().parse::<Tokens>(), Ok(t));
    }
}
