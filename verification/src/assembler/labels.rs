//! The label table and the pass that fills it.
//!
//! A label stands for the address of the instruction that follows it. Names
//! are kept as they are written and compared by their lowercase forms.

use vstd::prelude::*;
use vstd::string::StringExecFns;
use crate::assembler::token::Token;
use crate::assembler::token::TokenModel;
use crate::assembler::token::TokenType;
use crate::isa::LAST_ADDRESS;
use crate::text::at_line;
use crate::text::join;
use crate::text::join_texts;
use crate::text::lowercase;
use crate::text::message_at_line;
use crate::text::same_text;
use crate::text::to_lowercase;

verus! {

/// One entry of the table: the name as written, its lowercase form and the
/// address it stands for.
struct Label {
    name: String,
    key: String,
    address: u16,
}

/// The label table. Its view maps the lowercase form of each name to the
/// address of the label.
pub struct LabelTable {
    entries: Vec<Label>,
}

impl View for LabelTable {
    type V = Map<Seq<char>, u16>;

    closed spec fn view(&self) -> Map<Seq<char>, u16> {
        Map::new(
            |key: Seq<char>| self.holds(key),
            |key: Seq<char>| self.entries@[self.position(key)].address,
        )
    }
}

impl LabelTable {
    /// Some entry has the lowercase form `key`.
    closed spec fn holds(&self, key: Seq<char>) -> bool {
        exists|i: int| 0 <= i < self.entries@.len() && (#[trigger] self.entries@[i]).key@ == key
    }

    /// The place of an entry with the lowercase form `key`.
    closed spec fn position(&self, key: Seq<char>) -> int {
        choose|i: int| 0 <= i < self.entries@.len() && (#[trigger] self.entries@[i]).key@ == key
    }

    /// No two entries share a lowercase form, each lowercase form belongs to
    /// its name, and every address lies in memory.
    pub closed spec fn wf(&self) -> bool {
        &&& forall|i: int, j: int|
            0 <= i < j < self.entries@.len() ==> (#[trigger] self.entries@[i]).key@ != (
            #[trigger] self.entries@[j]).key@
        &&& forall|i: int|
            0 <= i < self.entries@.len() ==> (#[trigger] self.entries@[i]).key@ == lowercase(
                self.entries@[i].name@,
            )
        &&& forall|i: int|
            0 <= i < self.entries@.len() ==> (#[trigger] self.entries@[i]).address <= LAST_ADDRESS
    }

    /// The names of the labels as they were written, in the order of their
    /// definition.
    pub closed spec fn names(&self) -> Seq<Seq<char>> {
        Seq::new(self.entries@.len(), |i: int| self.entries@[i].name@)
    }

    /// The address that `name` stands for, if the table has it. Names are
    /// compared by their lowercase forms.
    pub open spec fn lookup(&self, name: Seq<char>) -> Option<u16> {
        if self@.contains_key(lowercase(name)) {
            Some(self@[lowercase(name)])
        } else {
            None
        }
    }

    /// Every address of a well-formed table lies in memory.
    pub proof fn lemma_addresses_in_memory(&self, key: Seq<char>)
        requires
            self.wf(),
            self@.contains_key(key),
        ensures
            self@[key] <= LAST_ADDRESS,
    {
        let i = self.position(key);
        assert(self.entries@[i].address <= LAST_ADDRESS);
    }

    /// The empty table.
    pub fn new() -> (table: LabelTable)
        ensures
            table.wf(),
            table@ == Map::<Seq<char>, u16>::empty(),
            table.names() == Seq::<Seq<char>>::empty(),
    {
        let table = LabelTable { entries: Vec::new() };
        assert(table@ =~= Map::<Seq<char>, u16>::empty());
        assert(table.names() =~= Seq::<Seq<char>>::empty());
        table
    }

    /// The number of labels.
    pub fn len(&self) -> (n: usize)
        requires
            self.wf(),
        ensures
            n == self.names().len(),
    {
        self.entries.len()
    }

    /// The address of the entry whose lowercase form is `key`.
    fn find(&self, key: &str) -> (r: Option<u16>)
        requires
            self.wf(),
        ensures
            r == (if self@.contains_key(key@) {
                Some(self@[key@])
            } else {
                None
            }),
            r matches Some(address) ==> address <= LAST_ADDRESS,
    {
        let mut i: usize = 0;
        while i < self.entries.len()
            invariant
                self.wf(),
                i <= self.entries.len(),
                forall|k: int| 0 <= k < i ==> (#[trigger] self.entries@[k]).key@ != key@,
            decreases self.entries.len() - i,
        {
            if same_text(self.entries[i].key.as_str(), key) {
                proof {
                    assert(self.holds(key@));
                    let p = self.position(key@);
                    assert(self.entries@[p].key@ == key@);
                    assert(p == i);
                }
                return Some(self.entries[i].address);
            }
            i += 1;
        }
        proof {
            if self.holds(key@) {
                let p = self.position(key@);
                assert(self.entries@[p].key@ == key@);
            }
        }
        None
    }

    /// Looks a name up, comparing by lowercase forms.
    pub fn get(&self, name: &str) -> (r: Option<u16>)
        requires
            self.wf(),
        ensures
            r == self.lookup(name@),
            r matches Some(address) ==> address <= LAST_ADDRESS,
    {
        let key = to_lowercase(name);
        self.find(key.as_str())
    }

    /// Whether the table has a label of this name.
    pub fn contains_key(&self, name: &str) -> (r: bool)
        requires
            self.wf(),
        ensures
            r == self@.contains_key(lowercase(name@)),
    {
        self.get(name).is_some()
    }

    /// The labels in the order of their definition, each with its name as
    /// written and its address.
    pub fn entries(&self) -> (r: Vec<(String, u16)>)
        requires
            self.wf(),
        ensures
            r.len() == self.names().len(),
            forall|i: int|
                0 <= i < r.len() ==> (#[trigger] r[i]).0@ == self.names()[i] && self.lookup(
                    r[i].0@,
                ) == Some(r[i].1),
    {
        let mut r: Vec<(String, u16)> = Vec::new();
        let mut i: usize = 0;
        while i < self.entries.len()
            invariant
                self.wf(),
                i <= self.entries.len(),
                r.len() == i,
                self.names().len() == self.entries.len(),
                forall|k: int|
                    0 <= k < i ==> (#[trigger] r[k]).0@ == self.names()[k] && self.lookup(r[k].0@)
                        == Some(r[k].1),
            decreases self.entries.len() - i,
        {
            let entry = &self.entries[i];
            proof {
                let key = entry.key@;
                assert(self.holds(key));
                let p = self.position(key);
                assert(self.entries@[p].key@ == key);
                assert(p == i);
            }
            r.push((entry.name.clone(), entry.address));
            i += 1;
        }
        r
    }

    /// Binds `name` to `address`. Nothing changes, and `false` is returned,
    /// if the table has the name already or if the address lies outside
    /// memory.
    pub fn insert(&mut self, name: &str, address: u16) -> (inserted: bool)
        requires
            old(self).wf(),
        ensures
            final(self).wf(),
            inserted == (!old(self)@.contains_key(lowercase(name@)) && address <= LAST_ADDRESS),
            inserted ==> final(self)@ == old(self)@.insert(lowercase(name@), address),
            inserted ==> final(self).names() == old(self).names().push(name@),
            !inserted ==> final(self)@ == old(self)@,
            !inserted ==> final(self).names() == old(self).names(),
    {
        let key = to_lowercase(name);
        if address > LAST_ADDRESS || self.find(key.as_str()).is_some() {
            return false;
        }
        let ghost before = *self;
        let ghost n = self.entries@.len() as int;
        let ghost k = key@;
        self.entries.push(Label { name: String::from_str(name), key, address });
        proof {
            assert(self.entries@[n].key@ == k);
            assert forall|i: int, j: int| 0 <= i < j < self.entries@.len() implies (
            #[trigger] self.entries@[i]).key@ != (#[trigger] self.entries@[j]).key@ by {
                if j == n {
                    assert(before.entries@[i].key@ != k);
                } else {
                    assert(before.entries@[i].key@ != before.entries@[j].key@);
                }
            }
            assert forall|q: Seq<char>| self.holds(q) == (q == k || before.holds(q)) by {
                if before.holds(q) {
                    let p = before.position(q);
                    assert(self.entries@[p].key@ == q);
                }
                if q == k {
                    assert(self.entries@[n].key@ == q);
                }
                if self.holds(q) && q != k {
                    let p = self.position(q);
                    assert(before.entries@[p].key@ == q);
                }
            }
            assert forall|q: Seq<char>| self.holds(q) implies #[trigger] self@[q]
                == before@.insert(k, address)[q] by {
                let p = self.position(q);
                assert(self.entries@[p].key@ == q);
                if q == k {
                    assert(self.entries@[n].key@ == q);
                    assert(p == n);
                } else {
                    assert(before.holds(q));
                    let p0 = before.position(q);
                    assert(before.entries@[p0].key@ == q);
                    assert(self.entries@[p0].key@ == q);
                    assert(p == p0);
                }
            }
            assert(self@ =~= before@.insert(k, address));
            assert(self.names() =~= before.names().push(name@));
        }
        true
    }
}

/// The number of instruction tokens among `tokens`.
pub open spec fn instructions_in(tokens: Seq<TokenModel>) -> nat
    decreases tokens.len(),
{
    if tokens.len() == 0 {
        0
    } else {
        instructions_in(tokens.drop_last()) + if tokens.last().token_type
            == TokenType::Instruction {
            1nat
        } else {
            0nat
        }
    }
}

/// The state of the label pass: the table so far and the errors so far.
pub struct LabelScan {
    pub table: Map<Seq<char>, u16>,
    pub errors: Seq<Seq<char>>,
}

/// The message for a label that is defined a second time.
pub open spec fn already_defined(name: Seq<char>) -> Seq<char> {
    "Label "@ + name + " already defined."@
}

/// The message for a label whose address lies outside memory.
pub open spec fn out_of_memory(name: Seq<char>) -> Seq<char> {
    "Label "@ + name + " is outside memory."@
}

/// The label pass over `tokens`. The program counter starts at `origin` and
/// every instruction token advances it by two; a label token binds the
/// lowercase form of its name to the current counter. A name that is bound
/// already, or an address beyond the last one, is an error with the number
/// of the line.
pub open spec fn label_scan(tokens: Seq<TokenModel>, origin: u16) -> LabelScan
    decreases tokens.len(),
{
    if tokens.len() == 0 {
        LabelScan { table: Map::empty(), errors: Seq::empty() }
    } else {
        let before = label_scan(tokens.drop_last(), origin);
        let token = tokens.last();
        let address = origin + 2 * instructions_in(tokens.drop_last());
        if token.token_type != TokenType::Label {
            before
        } else if before.table.contains_key(lowercase(token.name)) {
            LabelScan {
                table: before.table,
                errors: before.errors.push(at_line(token.line, already_defined(token.name))),
            }
        } else if address > LAST_ADDRESS {
            LabelScan {
                table: before.table,
                errors: before.errors.push(at_line(token.line, out_of_memory(token.name))),
            }
        } else {
            LabelScan {
                table: before.table.insert(lowercase(token.name), address as u16),
                errors: before.errors,
            }
        }
    }
}

/// The result of the label pass: the table, or all its errors, one per line.
pub open spec fn labels_outcome(tokens: Seq<TokenModel>, origin: u16) -> Result<
    Map<Seq<char>, u16>,
    Seq<char>,
> {
    let scan = label_scan(tokens, origin);
    if scan.errors.len() > 0 {
        Err(join(scan.errors, "\n"@))
    } else {
        Ok(scan.table)
    }
}

/// The mathematical content of the result of the label pass.
pub open spec fn labels_view(r: Result<LabelTable, String>) -> Result<
    Map<Seq<char>, u16>,
    Seq<char>,
> {
    match r {
        Ok(table) => Ok(table@),
        Err(e) => Err(e@),
    }
}

/// Resolves the labels of a program that starts at `origin`.
pub fn get_labels(tokens: &Vec<Token>, origin: u16) -> (r: Result<LabelTable, String>)
    ensures
        labels_view(r) == labels_outcome(tokens.deep_view(), origin),
        r matches Ok(table) ==> table.wf(),
{
    let mut labels = LabelTable::new();
    let mut errors: Vec<String> = Vec::new();
    let mut pc: u16 = origin;
    let mut i: usize = 0;
    assert(tokens.deep_view().take(0) =~= Seq::empty());
    assert(errors.deep_view() =~= Seq::empty());
    while i < tokens.len()
        invariant
            i <= tokens.len(),
            labels.wf(),
            labels@ == label_scan(tokens.deep_view().take(i as int), origin).table,
            errors.deep_view() == label_scan(tokens.deep_view().take(i as int), origin).errors,
            origin + 2 * instructions_in(tokens.deep_view().take(i as int)) <= LAST_ADDRESS ==> pc
                == origin + 2 * instructions_in(tokens.deep_view().take(i as int)),
            origin + 2 * instructions_in(tokens.deep_view().take(i as int)) > LAST_ADDRESS ==> pc
                > LAST_ADDRESS,
        decreases tokens.len() - i,
    {
        let ghost before = tokens.deep_view().take(i as int);
        let ghost after = tokens.deep_view().take(i + 1);
        assert(after.drop_last() =~= before);
        assert(after.last() == tokens@[i as int].deep_view());
        let token = &tokens[i];
        match token.token_type {
            TokenType::Label => {
                if labels.contains_key(token.name.as_str()) {
                    let message = String::from_str("Label ").concat(token.name.as_str()).concat(
                        " already defined.",
                    );
                    let ghost shown = errors.deep_view();
                    errors.push(message_at_line(token.line, message.as_str()));
                    assert(errors.deep_view() =~= shown.push(
                        at_line(token.line as nat, already_defined(token.name@)),
                    ));
                } else if pc > LAST_ADDRESS {
                    let message = String::from_str("Label ").concat(token.name.as_str()).concat(
                        " is outside memory.",
                    );
                    let ghost shown = errors.deep_view();
                    errors.push(message_at_line(token.line, message.as_str()));
                    assert(errors.deep_view() =~= shown.push(
                        at_line(token.line as nat, out_of_memory(token.name@)),
                    ));
                } else {
                    labels.insert(token.name.as_str(), pc);
                }
            },
            TokenType::Instruction => {
                if pc <= LAST_ADDRESS {
                    pc += 2;
                }
            },
            TokenType::Origin => {},
        }
        i += 1;
    }
    assert(tokens.deep_view().take(tokens.len() as int) =~= tokens.deep_view());
    if errors.len() > 0 {
        return Err(join_texts(&errors, "\n"));
    }
    Ok(labels)
}

} // verus!
