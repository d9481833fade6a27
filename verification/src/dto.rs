//! Request bodies of the HTTP API and the length rules they are validated
//! against. Lengths of texts count characters.

use vstd::prelude::*;

verus! {

/// A text of `min..=max` characters.
pub open spec fn length_between(s: Seq<char>, min: nat, max: nat) -> bool {
    min <= s.len() <= max
}

/// The names of the fields that break their rule, in field order.
pub open spec fn failing_fields(checks: Seq<(Seq<char>, bool)>) -> Seq<Seq<char>>
    decreases checks.len(),
{
    if checks.len() == 0 {
        seq![]
    } else {
        let rest = failing_fields(checks.drop_last());
        if checks.last().1 {
            rest
        } else {
            rest.push(checks.last().0)
        }
    }
}

/// The failing fields among one check.
proof fn lemma_failing_fields_one(a: (Seq<char>, bool))
    ensures
        failing_fields(seq![a]) == (if a.1 {
            seq![]
        } else {
            seq![a.0]
        }),
{
    reveal_with_fuel(failing_fields, 2);
    assert(seq![a].drop_last() =~= Seq::<(Seq<char>, bool)>::empty());
    assert(Seq::<Seq<char>>::empty().push(a.0) =~= seq![a.0]);
}

/// The failing fields among two checks.
proof fn lemma_failing_fields_two(a: (Seq<char>, bool), b: (Seq<char>, bool))
    ensures
        failing_fields(seq![a, b]) == (if a.1 {
            seq![]
        } else {
            seq![a.0]
        }) + (if b.1 {
            seq![]
        } else {
            seq![b.0]
        }),
{
    lemma_failing_fields_one(a);
    assert(seq![a, b].drop_last() =~= seq![a]);
    reveal_with_fuel(failing_fields, 2);
    assert(failing_fields(seq![a, b]) =~= (if a.1 {
        seq![]
    } else {
        seq![a.0]
    }) + (if b.1 {
        seq![]
    } else {
        seq![b.0]
    }));
}

/// The views of a list of field names.
pub open spec fn names_view(v: Vec<String>) -> Seq<Seq<char>> {
    v@.map_values(|s: String| s@)
}

/// The outcome of a validation: `Ok` when no field breaks its rule, else the
/// names of the fields that do.
pub open spec fn validation_outcome(r: Result<(), Vec<String>>, failing: Seq<Seq<char>>) -> bool {
    match r {
        Ok(_) => failing.len() == 0,
        Err(names) => failing.len() > 0 && names_view(names) == failing,
    }
}

/// Whether the text has `min..=max` characters.
fn has_length_between(s: &String, min: usize, max: usize) -> (b: bool)
    ensures
        b == length_between(s@, min as nat, max as nat),
{
    let n = s.as_str().unicode_len();
    min <= n && n <= max
}

/// Appends `name` to `names` when `ok` is false.
fn note_field(names: &mut Vec<String>, name: &str, ok: bool)
    ensures
        ok ==> names_view(*final(names)) == names_view(*old(names)),
        !ok ==> names_view(*final(names)) == names_view(*old(names)).push(name@),
{
    if !ok {
        names.push(String::from_str(name));
    }
    assert(names_view(*names) =~= (if ok {
        names_view(*old(names))
    } else {
        names_view(*old(names)).push(name@)
    }));
}

/// Turns the names of failing fields into the outcome of a validation.
fn outcome(names: Vec<String>) -> (r: Result<(), Vec<String>>)
    ensures
        validation_outcome(r, names_view(names)),
{
    if names.len() == 0 {
        assert(names_view(names).len() == 0);
        Ok(())
    } else {
        Err(names)
    }
}

/// A login: phone number of 8 to 20 characters, password of at least 6.
#[derive(Debug, Clone)]
pub struct LoginRequest {
    pub phone_number: String,
    pub password: String,
}

impl LoginRequest {
    /// The fields that break their rule.
    pub open spec fn failing(self) -> Seq<Seq<char>> {
        failing_fields(
            seq![
                ("phone_number"@, length_between(self.phone_number@, 8, 20)),
                ("password"@, self.password@.len() >= 6),
            ],
        )
    }

    /// Validates the request against its length rules.
    pub fn validate(&self) -> (r: Result<(), Vec<String>>)
        ensures
            validation_outcome(r, self.failing()),
            r is Ok <==> (8 <= self.phone_number@.len() <= 20 && self.password@.len() >= 6),
            r matches Err(names) ==> names_view(names) == (if 8 <= self.phone_number@.len() <= 20 {
                    seq![]
                } else {
                    seq!["phone_number"@]
                }) + (if self.password@.len() >= 6 {
                    seq![]
                } else {
                    seq!["password"@]
                }),
    {
        let mut names: Vec<String> = Vec::new();
        assert(names_view(names) =~= Seq::<Seq<char>>::empty());
        let phone_ok = has_length_between(&self.phone_number, 8, 20);
        note_field(&mut names, "phone_number", phone_ok);
        let password_ok = self.password.as_str().unicode_len() >= 6;
        note_field(&mut names, "password", password_ok);
        proof {
            lemma_failing_fields_two(
                ("phone_number"@, length_between(self.phone_number@, 8, 20)),
                ("password"@, self.password@.len() >= 6),
            );
            assert(names_view(names) =~= self.failing());
            self.lemma_rules();
        }
        outcome(names)
    }

    /// The rules, stated on the fields: the phone number must have 8 to 20
    /// characters and the password at least 6; the fields that break them are
    /// named in field order.
    pub proof fn lemma_rules(self)
        ensures
            self.failing() == (if 8 <= self.phone_number@.len() <= 20 {
                seq![]
            } else {
                seq!["phone_number"@]
            }) + (if self.password@.len() >= 6 {
                seq![]
            } else {
                seq!["password"@]
            }),
    {
        lemma_failing_fields_two(
            ("phone_number"@, length_between(self.phone_number@, 8, 20)),
            ("password"@, self.password@.len() >= 6),
        );
    }
}

/// A registration: phone number of 8 to 20 characters, password of at least
/// 6 ("Le mot de passe doit contenir au moins 6 caractères").
#[derive(Debug, Clone)]
pub struct RegisterRequest {
    pub phone_number: String,
    pub password: String,
}

impl RegisterRequest {
    /// The fields that break their rule.
    pub open spec fn failing(self) -> Seq<Seq<char>> {
        failing_fields(
            seq![
                ("phone_number"@, length_between(self.phone_number@, 8, 20)),
                ("password"@, self.password@.len() >= 6),
            ],
        )
    }

    /// Validates the request against its length rules.
    pub fn validate(&self) -> (r: Result<(), Vec<String>>)
        ensures
            validation_outcome(r, self.failing()),
            r is Ok <==> (8 <= self.phone_number@.len() <= 20 && self.password@.len() >= 6),
            r matches Err(names) ==> names_view(names) == (if 8 <= self.phone_number@.len() <= 20 {
                    seq![]
                } else {
                    seq!["phone_number"@]
                }) + (if self.password@.len() >= 6 {
                    seq![]
                } else {
                    seq!["password"@]
                }),
    {
        let mut names: Vec<String> = Vec::new();
        assert(names_view(names) =~= Seq::<Seq<char>>::empty());
        let phone_ok = has_length_between(&self.phone_number, 8, 20);
        note_field(&mut names, "phone_number", phone_ok);
        let password_ok = self.password.as_str().unicode_len() >= 6;
        note_field(&mut names, "password", password_ok);
        proof {
            lemma_failing_fields_two(
                ("phone_number"@, length_between(self.phone_number@, 8, 20)),
                ("password"@, self.password@.len() >= 6),
            );
            assert(names_view(names) =~= self.failing());
            self.lemma_rules();
        }
        outcome(names)
    }

    /// The rules, stated on the fields: the phone number must have 8 to 20
    /// characters and the password at least 6; the fields that break them are
    /// named in field order.
    pub proof fn lemma_rules(self)
        ensures
            self.failing() == (if 8 <= self.phone_number@.len() <= 20 {
                seq![]
            } else {
                seq!["phone_number"@]
            }) + (if self.password@.len() >= 6 {
                seq![]
            } else {
                seq!["password"@]
            }),
    {
        lemma_failing_fields_two(
            ("phone_number"@, length_between(self.phone_number@, 8, 20)),
            ("password"@, self.password@.len() >= 6),
        );
    }
}

/// A ticket purchase: between 1 and 6 numbers ("Sélectionnez  1 et 6
/// numéros") for a draw (the 128-bit value of its UUID).
#[derive(Debug, Clone)]
pub struct BuyTicketResquest {
    pub lottery_draw_id: u128,
    pub numbers: Vec<i32>,
}

impl BuyTicketResquest {
    /// The fields that break their rule.
    pub open spec fn failing(self) -> Seq<Seq<char>> {
        failing_fields(seq![("numbers"@, 1 <= self.numbers@.len() <= 6)])
    }

    /// Validates the request against its length rule.
    pub fn validate(&self) -> (r: Result<(), Vec<String>>)
        ensures
            validation_outcome(r, self.failing()),
            r is Ok <==> 1 <= self.numbers@.len() <= 6,
            r matches Err(names) ==> names_view(names) == seq!["numbers"@],
    {
        let mut names: Vec<String> = Vec::new();
        assert(names_view(names) =~= Seq::<Seq<char>>::empty());
        let n = self.numbers.len();
        note_field(&mut names, "numbers", 1 <= n && n <= 6);
        proof {
            lemma_failing_fields_one(("numbers"@, 1 <= self.numbers@.len() <= 6));
            assert(names_view(names) =~= self.failing());
            self.lemma_rules();
        }
        outcome(names)
    }

    /// The rule, stated on the field: 1 to 6 numbers.
    pub proof fn lemma_rules(self)
        ensures
            self.failing() == (if 1 <= self.numbers@.len() <= 6 {
                seq![]
            } else {
                seq!["numbers"@]
            }),
    {
        lemma_failing_fields_one(("numbers"@, 1 <= self.numbers@.len() <= 6));
    }
}

/// A profile update: a new phone number of 8 to 20 characters, when given.
#[derive(Debug, Clone)]
pub struct UpdateProfileRequest {
    pub phone_number: Option<String>,
}

impl UpdateProfileRequest {
    /// The fields that break their rule; an absent number breaks none.
    pub open spec fn failing(self) -> Seq<Seq<char>> {
        failing_fields(
            seq![
                ("phone_number"@, match self.phone_number {
                    Some(p) => length_between(p@, 8, 20),
                    None => true,
                }),
            ],
        )
    }

    /// Validates the request against its length rule.
    pub fn validate(&self) -> (r: Result<(), Vec<String>>)
        ensures
            validation_outcome(r, self.failing()),
            r is Ok <==> match self.phone_number {
                Some(p) => 8 <= p@.len() <= 20,
                None => true,
            },
            r matches Err(names) ==> names_view(names) == seq!["phone_number"@],
    {
        let mut names: Vec<String> = Vec::new();
        assert(names_view(names) =~= Seq::<Seq<char>>::empty());
        let ok = match &self.phone_number {
            Some(p) => has_length_between(p, 8, 20),
            None => true,
        };
        note_field(&mut names, "phone_number", ok);
        proof {
            lemma_failing_fields_one(("phone_number"@, ok));
            assert(names_view(names) =~= self.failing());
            self.lemma_rules();
        }
        outcome(names)
    }

    /// The rule, stated on the field: a new phone number, when given, has 8
    /// to 20 characters.
    pub proof fn lemma_rules(self)
        ensures
            self.failing() == (if match self.phone_number {
                Some(p) => 8 <= p@.len() <= 20,
                None => true,
            } {
                seq![]
            } else {
                seq!["phone_number"@]
            }),
    {
        lemma_failing_fields_one(
            ("phone_number"@, match self.phone_number {
                Some(p) => length_between(p@, 8, 20),
                None => true,
            }),
        );
    }
}

/// Pagination parameters of a listing.
#[derive(Debug, Clone)]
pub struct PaginationParams {
    pub page: Option<u32>,
    pub limit: Option<i64>,
    pub offset: Option<i64>,
}

} // verus!
