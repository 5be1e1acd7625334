//! The command registry: an ordered list of operation names and the numeric
//! identifiers they travel under.
//!
//! The operation at position `i` of the list has the identifier `i + 1`. The
//! identifiers `0` and `65535` are reserved for replies that carry an error
//! and are never assigned.

use crate::error::Error;
use vstd::prelude::*;

verus! {

/// The first reserved identifier: the reply carries an encoded error.
pub const SENTINEL_ERROR: u16 = 0;

/// The second reserved identifier: the reply carries the class of the codec
/// failure that kept the error itself from being encoded.
pub const SENTINEL_UNENCODABLE: u16 = 65535;

/// The largest number of operations a registry can hold.
pub const MAX_COMMANDS: usize = 65534;

/// Whether `code` is one of the two reserved identifiers.
pub open spec fn is_sentinel(code: u16) -> bool {
    code == SENTINEL_ERROR || code == SENTINEL_UNENCODABLE
}

/// An operation, named by its position in the registry's list.
#[derive(Clone, Copy, Debug, PartialEq, Eq)]
pub struct CommandID {
    pub index: usize,
}

/// Whether no name occurs twice in `names`.
pub open spec fn distinct(names: Seq<Seq<char>>) -> bool {
    forall|i: int, j: int| 0 <= i < j < names.len() ==> names[i] != names[j]
}

/// Whether `names` can be declared: at least one operation, no more than there
/// are identifiers, no name twice.
pub open spec fn declarable(names: Seq<Seq<char>>) -> bool {
    1 <= names.len() <= MAX_COMMANDS && distinct(names)
}

/// The names of `names` as sequences of characters.
pub open spec fn texts(names: Seq<String>) -> Seq<Seq<char>> {
    names.map_values(|s: String| s@)
}

/// The fixed, ordered list of operations of one subsystem.
pub struct Registry {
    names: Vec<String>,
}

impl View for Registry {
    type V = Seq<Seq<char>>;

    /// The declared names, in order.
    closed spec fn view(&self) -> Seq<Seq<char>> {
        texts(self.names@)
    }
}

impl Registry {
    /// Whether the registry holds a list that can be declared. This holds of
    /// every registry that a program holds.
    #[verifier::type_invariant]
    pub open spec fn wf(&self) -> bool {
        declarable(self@)
    }

    /// Whether `id` names an operation of this registry.
    pub open spec fn declares(&self, id: CommandID) -> bool {
        id.index < self@.len()
    }

    /// Whether `code` is the identifier of an operation of this registry.
    pub open spec fn assigns(&self, code: u16) -> bool {
        1 <= code <= self@.len()
    }

    /// Whether `name` is the name of an operation of this registry.
    pub open spec fn names(&self, name: Seq<char>) -> bool {
        self@.contains(name)
    }

    /// The identifier of the operation `id`.
    pub open spec fn code(&self, id: CommandID) -> u16
        recommends
            self.declares(id),
    {
        (id.index + 1) as u16
    }

    /// The operation with the identifier `code`.
    pub open spec fn command(&self, code: u16) -> CommandID
        recommends
            self.assigns(code),
    {
        CommandID { index: (code - 1) as usize }
    }

    /// No operation travels under a reserved identifier: the identifier of
    /// each lies between 1 and the number of operations.
    pub proof fn lemma_code_never_sentinel(&self, id: CommandID)
        requires
            self.wf(),
            self.declares(id),
        ensures
            self.assigns(self.code(id)),
            !is_sentinel(self.code(id)),
            self.code(id) != 0,
            self.code(id) != 65535,
    {
    }

    /// Operations and identifiers correspond one to one.
    pub proof fn lemma_code_command_inverse(&self, id: CommandID, code: u16)
        requires
            self.wf(),
        ensures
            self.declares(id) ==> self.command(self.code(id)) == id,
            self.assigns(code) ==> self.declares(self.command(code)) && self.code(
                self.command(code),
            ) == code,
    {
    }

    /// Two parties that declare the same list, in the same order, agree on
    /// every identifier.
    pub proof fn lemma_same_list_same_codes(&self, other: &Registry, id: CommandID, code: u16)
        requires
            self@ == other@,
        ensures
            self.declares(id) == other.declares(id),
            self.assigns(code) == other.assigns(code),
            self.code(id) == other.code(id),
            self.command(code) == other.command(code),
    {
    }

    /// Operations and names correspond one to one: two operations with the
    /// same name are the same operation.
    pub proof fn lemma_name_unique(&self, a: CommandID, b: CommandID)
        requires
            self.wf(),
            self.declares(a),
            self.declares(b),
            self@[a.index as int] == self@[b.index as int],
        ensures
            a == b,
    {
        if a.index < b.index {
            assert(self@[a.index as int] != self@[b.index as int]);
        }
        if b.index < a.index {
            assert(self@[b.index as int] != self@[a.index as int]);
        }
    }

    /// Declares the operations `names`, in this order. A list that is empty,
    /// longer than [`MAX_COMMANDS`] or holds a name twice is refused.
    pub fn new(names: Vec<String>) -> (r: Option<Registry>)
        ensures
            r is Some <==> declarable(texts(names@)),
            r matches Some(registry) ==> registry.wf() && registry@ == texts(names@),
    {
        let n = names.len();
        if n == 0 || n > MAX_COMMANDS {
            return None;
        }
        let mut j: usize = 1;
        while j < n
            invariant
                1 <= j <= n,
                n == names.len(),
                distinct(texts(names@).take(j as int)),
            decreases n - j,
        {
            let mut i: usize = 0;
            while i < j
                invariant
                    0 <= i <= j < n,
                    n == names.len(),
                    forall|k: int| 0 <= k < i ==> names@[k]@ != names@[j as int]@,
                decreases j - i,
            {
                if names[i] == names[j] {
                    assert(texts(names@)[i as int] == texts(names@)[j as int]);
                    return None;
                }
                i += 1;
            }
            j += 1;
        }
        assert(texts(names@).take(n as int) =~= texts(names@));
        Some(Registry { names })
    }

    /// The number of operations.
    pub fn len(&self) -> (r: usize)
        ensures
            r == self@.len(),
    {
        self.names.len()
    }

    /// The operation with the identifier `code`. Fails with
    /// [`Error::NoCmd`] for the reserved identifiers and for every other
    /// identifier that is not assigned.
    pub fn try_from_code(&self, code: u16) -> (r: Result<CommandID, Error>)
        ensures
            match r {
                Ok(id) => self.assigns(code) && id == self.command(code),
                Err(e) => !self.assigns(code) && e == Error::NoCmd,
            },
    {
        if code >= 1 && code as usize <= self.names.len() {
            Ok(CommandID { index: (code - 1) as usize })
        } else {
            Err(Error::NoCmd)
        }
    }

    /// The operation with the name `name`. Fails with [`Error::NoCmd`]
    /// for a name that was not declared.
    pub fn try_from_name(&self, name: &str) -> (r: Result<CommandID, Error>)
        ensures
            match r {
                Ok(id) => self.declares(id) && self@[id.index as int] == name@,
                Err(e) => !self.names(name@) && e == Error::NoCmd,
            },
    {
        let wanted = name.to_owned();
        let mut i: usize = 0;
        while i < self.names.len()
            invariant
                0 <= i <= self.names.len(),
                wanted@ == name@,
                forall|k: int| 0 <= k < i ==> self@[k] != name@,
            decreases self.names.len() - i,
        {
            if self.names[i] == wanted {
                assert(self@[i as int] == name@);
                return Ok(CommandID { index: i });
            }
            i += 1;
        }
        Err(Error::NoCmd)
    }

    /// The identifier of the operation `id`. Fails with [`Error::NoCmd`]
    /// for an operation that this registry does not hold.
    pub fn try_into_code(&self, id: CommandID) -> (r: Result<u16, Error>)
        ensures
            match r {
                Ok(code) => self.declares(id) && code == self.code(id) && self.assigns(code)
                    && !is_sentinel(code),
                Err(e) => !self.declares(id) && e == Error::NoCmd,
            },
    {
        proof {
            use_type_invariant(self);
        }
        if id.index < self.names.len() {
            Ok((id.index + 1) as u16)
        } else {
            Err(Error::NoCmd)
        }
    }

    /// The name of the operation `id`; `None` for an operation that this
    /// registry does not hold.
    pub fn name(&self, id: CommandID) -> (r: Option<&str>)
        ensures
            match r {
                Some(name) => self.declares(id) && name@ == self@[id.index as int],
                None => !self.declares(id),
            },
    {
        if id.index < self.names.len() {
            Some(self.names[id.index].as_str())
        } else {
            None
        }
    }
}

} // verus!
