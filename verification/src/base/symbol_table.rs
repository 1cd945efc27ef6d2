use crate::base::types::Type;
use crate::scanner::position::Position;
use crate::text::{copy_str, eq_ignore_case, join5, join6, same_ignoring_case};
use vstd::prelude::*;

verus! {

/// The role of a declared name.
#[derive(PartialEq, Eq, Structural, Clone, Copy, Debug)]
pub enum SymbolType {
    Function,
    Procedure,
    Var,
    VarParam,
    Param,
    Arr,
}

impl SymbolType {
    /// Whether a name of this role holds a value that can be read and
    /// assigned: every role but function and procedure.
    pub open spec fn is_storage(self) -> bool {
        self != SymbolType::Function && self != SymbolType::Procedure
    }

    pub fn storage(&self) -> (b: bool)
        ensures
            b == self.is_storage(),
    {
        match self {
            SymbolType::Function => false,
            SymbolType::Procedure => false,
            _ => true,
        }
    }

    /// The name of the role.
    pub open spec fn text(self) -> Seq<char> {
        match self {
            SymbolType::Function => "Function"@,
            SymbolType::Procedure => "Procedure"@,
            SymbolType::Var => "Var"@,
            SymbolType::VarParam => "VarParam"@,
            SymbolType::Param => "Param"@,
            SymbolType::Arr => "Arr"@,
        }
    }

    /// The name of the role.
    pub fn to_string(&self) -> (s: String)
        ensures
            s@ == self.text(),
    {
        match self {
            SymbolType::Function => copy_str("Function"),
            SymbolType::Procedure => copy_str("Procedure"),
            SymbolType::Var => copy_str("Var"),
            SymbolType::VarParam => copy_str("VarParam"),
            SymbolType::Param => copy_str("Param"),
            SymbolType::Arr => copy_str("Arr"),
        }
    }
}

/// A declared name.
#[derive(Debug)]
pub struct Symbol {
    pub name: String,
    pub s_type: SymbolType,
    pub r_type: Type,
    pub position: Position,
    /// The parameters, for a function or a procedure.
    pub args: Option<Box<SymbolTable>>,
}

/// The names declared in one scope, in the order of their declaration.
#[derive(Debug)]
pub struct SymbolTable {
    pub symbols: Vec<Symbol>,
}

/// What a symbol says of its name, without its parameters.
pub ghost struct Entry {
    pub name: Seq<char>,
    pub s_type: SymbolType,
    pub r_type: Type,
    pub position: Position,
}

/// All that a symbol holds: its entry, and all that each symbol of its
/// own table holds, where it has one.
pub ghost struct Content {
    pub entry: Entry,
    pub args: Option<Seq<Content>>,
}

/// All that the symbols of a list hold, in order.
pub open spec fn contents(symbols: Seq<Symbol>) -> Seq<Content>
    decreases symbols,
{
    Seq::new(
        symbols.len(),
        |i: int|
            if 0 <= i < symbols.len() {
                symbols[i].content()
            } else {
                arbitrary()
            },
    )
}

/// What a symbol says: its entry, and the entries of its parameters
/// where it is a function or a procedure.
pub ghost struct Declared {
    pub entry: Entry,
    pub params: Option<Seq<Entry>>,
}

/// The index of the last declaration before `end` whose name is `key`,
/// the case of ASCII letters ignored.
pub open spec fn last_declared(decls: Seq<Declared>, key: Seq<char>, end: int) -> Option<int>
    decreases end,
{
    if end <= 0 || end > decls.len() {
        None
    } else if same_ignoring_case(decls[end - 1].entry.name, key) {
        Some(end - 1)
    } else {
        last_declared(decls, key, end - 1)
    }
}

/// The declaration that a scope holds for `key`: the last one of that
/// name, the case of ASCII letters ignored.
pub open spec fn declared_for(decls: Seq<Declared>, key: Seq<char>) -> Option<Declared> {
    match last_declared(decls, key, decls.len() as int) {
        Some(i) => Some(decls[i]),
        None => None,
    }
}

impl Symbol {
    /// All that the symbol holds.
    pub open spec fn content(self) -> Content
        decreases self,
    {
        Content {
            entry: self.entry(),
            args: match self.args {
                Some(t) => Some(contents(t.symbols@)),
                None => None,
            },
        }
    }

    /// A copy of the symbol, with all that it holds.
    pub fn copy(&self) -> (r: Symbol)
        ensures
            r.content() == self.content(),
            r.declared() == self.declared(),
            r.name@ == self.name@,
        decreases self, 0nat,
    {
        let args = match &self.args {
            Some(t) => Some(Box::new(t.copy())),
            None => None,
        };
        Symbol {
            name: self.name.clone(),
            s_type: self.s_type,
            r_type: self.r_type,
            position: self.position,
            args,
        }
    }

    /// What the symbol says.
    pub open spec fn declared(self) -> Declared {
        Declared { entry: self.entry(), params: self.signature() }
    }

    pub open spec fn entry(self) -> Entry {
        Entry {
            name: self.name@,
            s_type: self.s_type,
            r_type: self.r_type,
            position: self.position,
        }
    }

    /// The parameters of a function or a procedure, in order.
    pub open spec fn signature(self) -> Option<Seq<Entry>> {
        match self.args {
            Some(t) => Some(t.entries()),
            None => None,
        }
    }

    /// The symbol as it is shown: its role and its type.
    pub open spec fn text(self) -> Seq<char> {
        "("@ + self.s_type.text() + ", "@ + self.r_type.text() + ")"@
    }

    /// The symbol as it is shown: its role and its type.
    pub fn to_string(&self) -> (s: String)
        ensures
            s@ == self.text(),
    {
        let role = self.s_type.to_string();
        let r_type = self.r_type.to_string();
        join5("(", role.as_str(), ", ", r_type.as_str(), ")")
    }

    /// A symbol without parameters.
    pub fn plain(name: String, s_type: SymbolType, r_type: Type, position: Position) -> (s: Symbol)
        ensures
            s.entry() == (Entry { name: name@, s_type, r_type, position }),
            s.args is None,
            s.name == name,
    {
        Symbol { name, s_type, r_type, position, args: None }
    }
}

impl SymbolTable {
    /// The entries of the table, in order.
    pub open spec fn entries(self) -> Seq<Entry> {
        Seq::new(self.symbols@.len(), |i: int| self.symbols@[i].entry())
    }

    /// What the symbols of the table say, in order.
    pub open spec fn declarations(self) -> Seq<Declared> {
        Seq::new(self.symbols@.len(), |i: int| self.symbols@[i].declared())
    }

    /// The index of the last symbol before `end` whose name is `key`,
    /// the case of ASCII letters ignored.
    pub open spec fn last_match(symbols: Seq<Symbol>, key: Seq<char>, end: int) -> Option<int>
        decreases end,
    {
        if end <= 0 || end > symbols.len() {
            None
        } else if same_ignoring_case(symbols[end - 1].name@, key) {
            Some(end - 1)
        } else {
            Self::last_match(symbols, key, end - 1)
        }
    }

    /// The symbol that the table holds for `key`: the last one of that
    /// name, the case of ASCII letters ignored.
    pub open spec fn lookup(self, key: Seq<char>) -> Option<Symbol> {
        match Self::last_match(self.symbols@, key, self.symbols@.len() as int) {
            Some(i) => Some(self.symbols@[i]),
            None => None,
        }
    }

    /// Whether the table holds a symbol for `key`.
    pub open spec fn declares(self, key: Seq<char>) -> bool {
        self.lookup(key) is Some
    }

    pub fn new() -> (t: SymbolTable)
        ensures
            t.symbols@.len() == 0,
            t.declarations() == Seq::<Declared>::empty(),
    {
        let t = SymbolTable { symbols: Vec::new() };
        assert(t.declarations() =~= Seq::<Declared>::empty());
        t
    }

    /// The first `n` symbols as they are shown: before each a comma,
    /// then its name and the symbol in parentheses.
    pub open spec fn listing(symbols: Seq<Symbol>, n: nat) -> Seq<char>
        decreases n,
    {
        if n == 0 || n > symbols.len() {
            Seq::empty()
        } else {
            Self::listing(symbols, (n - 1) as nat) + ", ("@ + symbols[n - 1].name@ + ", "@
                + symbols[n - 1].text() + ")"@
        }
    }

    /// The table as it is shown: its symbols in order.
    pub open spec fn text(self) -> Seq<char> {
        Self::listing(self.symbols@, self.symbols@.len())
    }

    /// The table as it is shown: its symbols in order.
    pub fn to_string(&self) -> (s: String)
        ensures
            s@ == self.text(),
    {
        let mut res = String::new();
        let n = self.symbols.len();
        let mut i: usize = 0;
        while i < n
            invariant
                i <= n,
                n == self.symbols@.len(),
                res@ == Self::listing(self.symbols@, i as nat),
            decreases n - i,
        {
            let sym = self.symbols[i].to_string();
            res = join6(res.as_str(), ", (", self.symbols[i].name.as_str(), ", ", sym.as_str(), ")");
            i = i + 1;
        }
        res
    }

    pub fn len(&self) -> (n: usize)
        ensures
            n == self.symbols@.len(),
    {
        self.symbols.len()
    }

    pub fn push(&mut self, sym: Symbol)
        ensures
            final(self).symbols@ == old(self).symbols@.push(sym),
            final(self).declarations() == old(self).declarations().push(sym.declared()),
    {
        self.symbols.push(sym);
        assert(self.declarations() =~= old(self).declarations().push(sym.declared()));
    }

    /// Walks the symbols in the order of their declaration.
    pub fn iter(&self) -> (it: std::slice::Iter<'_, Symbol>)
        ensures
            vstd::std_specs::slice::into_iter_elts(it) == self.symbols@,
    {
        broadcast use vstd::std_specs::slice::axiom_spec_slice_iter;

        let it = self.symbols.as_slice().iter();
        assert(vstd::std_specs::slice::into_iter_elts(it) =~= self.symbols@);
        it
    }

    /// Looks a name up, ignoring the case of ASCII letters. Where the
    /// table holds several symbols of the name, the one that was pushed
    /// last is found.
    /// A copy of the symbol is handed out.
    pub fn get(&self, key: String) -> (r: Option<Symbol>)
        ensures
            match r {
                Some(s) => self.lookup(key@) matches Some(found) && s.content() == found.content()
                    && declared_for(self.declarations(), key@) == Some(s.declared()),
                None => self.lookup(key@) is None && declared_for(self.declarations(), key@) is None,
            },
    {
        match self.find(key.as_str()) {
            Some(s) => Some(s.copy()),
            None => None,
        }
    }

    /// Looks a name up, ignoring the case of ASCII letters. Where the
    /// table holds several symbols of the name, the one that was pushed
    /// last is found.
    pub fn find(&self, key: &str) -> (r: Option<&Symbol>)
        ensures
            match r {
                Some(s) => self.lookup(key@) == Some(*s) && declared_for(self.declarations(), key@)
                    == Some(s.declared()),
                None => self.lookup(key@) is None && declared_for(self.declarations(), key@) is None,
            },
    {
        let n = self.symbols.len();
        let mut i: usize = n;
        while i > 0
            invariant
                i <= n,
                n == self.symbols@.len(),
                self.declarations().len() == n,
                Self::last_match(self.symbols@, key@, n as int) == Self::last_match(
                    self.symbols@,
                    key@,
                    i as int,
                ),
                last_declared(self.declarations(), key@, n as int) == last_declared(
                    self.declarations(),
                    key@,
                    i as int,
                ),
            decreases i,
        {
            i = i - 1;
            if eq_ignore_case(self.symbols[i].name.as_str(), key) {
                return Some(&self.symbols[i]);
            }
        }
        None
    }

    /// A copy of the table, with all that its symbols hold.
    #[verifier::loop_isolation(false)]
    pub fn copy(&self) -> (t: SymbolTable)
        ensures
            contents(t.symbols@) == contents(self.symbols@),
            t.declarations() == self.declarations(),
            t.entries() == self.entries(),
        decreases self, 1nat,
    {
        let mut t = SymbolTable { symbols: Vec::new() };
        let mut i: usize = 0;
        while i < self.symbols.len()
            invariant
                i <= self.symbols.len(),
                t.symbols@.len() == i,
                forall|j: int|
                    0 <= j < i ==> (#[trigger] t.symbols@[j]).content() == self.symbols@[j].content(),
                forall|j: int|
                    0 <= j < i ==> (#[trigger] t.symbols@[j]).declared() == self.symbols@[j].declared(),
            decreases self.symbols.len() - i,
        {
            let s = self.symbols[i].copy();
            t.symbols.push(s);
            i = i + 1;
        }
        assert(contents(t.symbols@) =~= contents(self.symbols@));
        assert(t.declarations() =~= self.declarations());
        assert(t.entries() =~= self.entries()) by {
            assert forall|j: int| 0 <= j < t.symbols@.len() implies t.symbols@[j].entry()
                == self.symbols@[j].entry() by {
                assert(t.symbols@[j].declared() == self.symbols@[j].declared());
            }
        }
        t
    }

    /// A table with the same entries, none of them with parameters.
    pub fn copy_entries(&self) -> (t: SymbolTable)
        ensures
            t.entries() == self.entries(),
            forall|i: int| 0 <= i < t.symbols@.len() ==> (#[trigger] t.symbols@[i]).args is None,
            t.declarations() == Seq::new(
                self.entries().len(),
                |i: int| (Declared { entry: self.entries()[i], params: None }),
            ),
    {
        let mut t = SymbolTable::new();
        let mut i: usize = 0;
        while i < self.symbols.len()
            invariant
                i <= self.symbols.len(),
                t.symbols@.len() == i,
                forall|j: int| 0 <= j < i ==> (#[trigger] t.symbols@[j]).entry() == self.symbols@[j].entry(),
                forall|j: int| 0 <= j < i ==> (#[trigger] t.symbols@[j]).args is None,
            decreases self.symbols.len() - i,
        {
            let s = &self.symbols[i];
            t.push(Symbol::plain(s.name.clone(), s.s_type, s.r_type, s.position));
            i = i + 1;
        }
        assert(t.entries() =~= self.entries());
        assert(t.declarations() =~= Seq::new(
            self.entries().len(),
            |i: int| (Declared { entry: self.entries()[i], params: None }),
        ));
        t
    }
}

impl Clone for Symbol {
    fn clone(&self) -> (r: Self)
        ensures
            r.content() == self.content(),
            r.declared() == self.declared(),
    {
        self.copy()
    }
}

impl Clone for SymbolTable {
    fn clone(&self) -> (r: Self)
        ensures
            contents(r.symbols@) == contents(self.symbols@),
            r.declarations() == self.declarations(),
    {
        self.copy()
    }
}

} // verus!
