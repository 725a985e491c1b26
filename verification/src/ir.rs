//! The program under construction: modules, operations, regions, blocks and
//! attributes as plain values, and the builder that assembles functions.
//!
//! Types and attribute values are the texts that the backend parses, and
//! everything is created at the unknown location.

use crate::pass::Pass;
use vstd::prelude::*;
use vstd::string::*;

verus! {

/// `items` written one after another with `", "` between neighbours.
pub open spec fn comma_separated(items: Seq<Seq<char>>) -> Seq<char>
    decreases items.len(),
{
    if items.len() == 0 {
        Seq::empty()
    } else if items.len() == 1 {
        items[0]
    } else {
        comma_separated(items.drop_last()) + ", "@ + items.last()
    }
}

/// The text of a function type: the argument types in parentheses, an arrow,
/// the result types in parentheses.
pub open spec fn function_type_spec(arguments: Seq<Seq<char>>, results: Seq<Seq<char>>) -> Seq<
    char,
> {
    "("@ + comma_separated(arguments) + ") -> ("@ + comma_separated(results) + ")"@
}

/// The text of a string attribute that holds `name`: the name between double
/// quotes.
pub open spec fn symbol_name_spec(name: Seq<char>) -> Seq<char> {
    "\""@ + name + "\""@
}

fn append_comma_separated(text: &mut String, items: &Vec<String>)
    ensures
        final(text)@ == old(text)@ + comma_separated(items.deep_view()),
{
    let ghost start = text@;
    let ghost all = items.deep_view();
    let mut i: usize = 0;
    while i < items.len()
        invariant
            i <= items.len(),
            all == items.deep_view(),
            text@ == start + comma_separated(all.take(i as int)),
        decreases items.len() - i,
    {
        if i > 0 {
            text.append(", ");
        }
        text.append(items[i].as_str());
        proof {
            let next = all.take(i + 1);
            assert(next.drop_last() =~= all.take(i as int));
            assert(next.last() == items[i as int]@);
            assert(text@ =~= start + comma_separated(next));
        }
        i += 1;
    }
    assert(all.take(i as int) =~= all);
}

/// Writes the function type that takes `arg_types` and gives `result_types`.
pub fn function_type_text(arg_types: &Vec<String>, result_types: &Vec<String>) -> (text: String)
    ensures
        text@ == function_type_spec(arg_types.deep_view(), result_types.deep_view()),
{
    let mut text = String::from_str("(");
    append_comma_separated(&mut text, arg_types);
    text.append(") -> (");
    append_comma_separated(&mut text, result_types);
    text.append(")");
    text
}

/// Writes the string attribute that holds `name`.
pub fn symbol_name_text(name: &str) -> (text: String)
    ensures
        text@ == symbol_name_spec(name@),
{
    let mut text = String::from_str("\"");
    text.append(name);
    text.append("\"");
    text
}

/// One attribute of an operation: its key and the text of its value.
#[derive(Debug, PartialEq, Eq)]
pub struct NamedAttribute {
    pub name: String,
    pub value: String,
}

/// An ordered sequence of operations behind a list of typed arguments. Each
/// argument is the text of its type.
#[derive(Debug, PartialEq, Eq)]
pub struct Block {
    pub arguments: Vec<String>,
    pub operations: Vec<Operation>,
}

/// An ordered sequence of blocks, owned by one operation.
#[derive(Debug, PartialEq, Eq)]
pub struct Region {
    pub blocks: Vec<Block>,
}

/// A named unit of computation with its attributes and the regions it owns.
#[derive(Debug, PartialEq, Eq)]
pub struct Operation {
    pub name: String,
    pub attributes: Vec<NamedAttribute>,
    pub regions: Vec<Region>,
}

/// Every operation of `operations` is well formed.
pub open spec fn well_formed(operations: Seq<Operation>) -> bool {
    forall|i: int| 0 <= i < operations.len() ==> (#[trigger] operations[i]).wf()
}

impl Block {
    /// The argument types as texts.
    pub open spec fn argument_types(&self) -> Seq<Seq<char>> {
        self.arguments.deep_view()
    }

    /// A block is the entry block for `arguments` when it takes exactly those
    /// and holds no operation yet.
    pub open spec fn is_entry(&self, arguments: Seq<Seq<char>>) -> bool {
        &&& self.argument_types() == arguments
        &&& self.operations@.len() == 0
    }

    /// Every operation of the block is well formed.
    pub open spec fn wf(&self) -> bool
        decreases self,
    {
        forall|i: int| 0 <= i < self.operations@.len() ==> (#[trigger] self.operations@[i]).wf()
    }

    /// A block with the given arguments and no operations.
    pub fn new(arguments: Vec<String>) -> (block: Block)
        ensures
            block.arguments == arguments,
            block.is_entry(arguments.deep_view()),
            block.wf(),
    {
        Block { arguments, operations: Vec::new() }
    }

    /// Puts `operation` behind the operations the block already holds.
    pub fn append_operation(&mut self, operation: Operation)
        ensures
            final(self).arguments == old(self).arguments,
            final(self).operations@ == old(self).operations@.push(operation),
            final(self).wf() <==> old(self).wf() && operation.wf(),
    {
        self.operations.push(operation);
        proof {
            if old(self).wf() && operation.wf() {
                assert(self.wf());
            }
            if self.wf() {
                assert(self.operations@[old(self).operations@.len() as int].wf());
                assert forall|i: int| 0 <= i < old(self).operations@.len() implies (
                #[trigger] old(self).operations@[i]).wf() by {
                    assert(self.operations@[i].wf());
                }
            }
        }
    }
}

impl Region {
    /// Every block of the region is well formed.
    pub open spec fn wf(&self) -> bool
        decreases self,
    {
        forall|i: int| 0 <= i < self.blocks@.len() ==> (#[trigger] self.blocks@[i]).wf()
    }

    /// A region without blocks.
    pub fn new() -> (region: Region)
        ensures
            region.blocks@.len() == 0,
            region.wf(),
    {
        Region { blocks: Vec::new() }
    }

    /// Hands `block` over to the region, behind the blocks it already owns.
    pub fn append_block(&mut self, block: Block)
        ensures
            final(self).blocks@ == old(self).blocks@.push(block),
            final(self).wf() <==> old(self).wf() && block.wf(),
    {
        self.blocks.push(block);
        proof {
            if old(self).wf() && block.wf() {
                assert(self.wf());
            }
            if self.wf() {
                assert(self.blocks@[old(self).blocks@.len() as int].wf());
                assert forall|i: int| 0 <= i < old(self).blocks@.len() implies (
                #[trigger] old(self).blocks@[i]).wf() by {
                    assert(self.blocks@[i].wf());
                }
            }
        }
    }
}

impl Operation {
    /// The attribute keys in order.
    pub open spec fn keys(&self) -> Seq<Seq<char>> {
        Seq::new(self.attributes@.len(), |i: int| self.attributes@[i].name@)
    }

    /// The attribute values in order.
    pub open spec fn values(&self) -> Seq<Seq<char>> {
        Seq::new(self.attributes@.len(), |i: int| self.attributes@[i].value@)
    }

    /// No attribute key occurs twice, here and in every operation nested
    /// within the regions.
    pub open spec fn wf(&self) -> bool
        decreases self,
    {
        &&& self.keys().no_duplicates()
        &&& forall|i: int| 0 <= i < self.regions@.len() ==> (#[trigger] self.regions@[i]).wf()
    }

    /// An operation called `name` without attributes or regions.
    pub fn new(name: &str) -> (operation: Operation)
        ensures
            operation.name@ == name@,
            operation.attributes@.len() == 0,
            operation.regions@.len() == 0,
            operation.wf(),
    {
        Operation { name: String::from_str(name), attributes: Vec::new(), regions: Vec::new() }
    }

    /// The position of the attribute with key `key`, if the operation has one.
    pub fn find_attribute(&self, key: &str) -> (position: Option<usize>)
        ensures
            match position {
                Some(i) => i < self.keys().len() && self.keys()[i as int] == key@ && !self.keys().take(
                    i as int,
                ).contains(key@),
                None => !self.keys().contains(key@),
            },
    {
        let wanted = String::from_str(key);
        let mut i: usize = 0;
        while i < self.attributes.len()
            invariant
                i <= self.attributes@.len(),
                wanted@ == key@,
                !self.keys().take(i as int).contains(key@),
            decreases self.attributes@.len() - i,
        {
            if self.attributes[i].name == wanted {
                return Some(i);
            }
            assert(self.keys().take(i + 1) =~= self.keys().take(i as int).push(self.keys()[i as int]));
            i += 1;
        }
        assert(self.keys().take(i as int) =~= self.keys());
        None
    }

    /// Gives the attribute `key` the value `value`: in place where the key is
    /// present, as a new last attribute where it is not.
    pub fn set_attribute(&mut self, key: &str, value: &str)
        requires
            old(self).wf(),
        ensures
            final(self).wf(),
            final(self).name == old(self).name,
            final(self).regions == old(self).regions,
            old(self).keys().contains(key@) ==> {
                let i = old(self).keys().index_of(key@);
                &&& final(self).keys() == old(self).keys()
                &&& final(self).values() == old(self).values().update(i, value@)
            },
            !old(self).keys().contains(key@) ==> {
                &&& final(self).keys() == old(self).keys().push(key@)
                &&& final(self).values() == old(self).values().push(value@)
            },
    {
        let attribute = NamedAttribute { name: String::from_str(key), value: String::from_str(value) };
        match self.find_attribute(key) {
            Some(i) => {
                proof {
                    old(self).keys().index_of_first_ensures(key@);
                }
                self.attributes.set(i, attribute);
                assert(final(self).keys() =~= old(self).keys());
                assert(final(self).values() =~= old(self).values().update(i as int, value@));
            },
            None => {
                self.attributes.push(attribute);
                assert(self.keys() =~= old(self).keys().push(key@));
                assert(self.values() =~= old(self).values().push(value@));
            },
        }
    }

    /// Hands `region` over to the operation, behind the regions it already owns.
    pub fn add_region(&mut self, region: Region)
        ensures
            final(self).name == old(self).name,
            final(self).attributes == old(self).attributes,
            final(self).regions@ == old(self).regions@.push(region),
            final(self).wf() <==> old(self).wf() && region.wf(),
    {
        self.regions.push(region);
        proof {
            if old(self).wf() && region.wf() {
                assert(self.wf());
            }
            if self.wf() {
                assert(self.regions@[old(self).regions@.len() as int].wf());
                assert forall|i: int| 0 <= i < old(self).regions@.len() implies (
                #[trigger] old(self).regions@[i]).wf() by {
                    assert(self.regions@[i].wf());
                }
            }
        }
    }

    /// The operation kind that declares a function.
    pub open spec fn function_kind() -> Seq<char> {
        "func.func"@
    }

    /// The key of the attribute that holds a function's type.
    pub open spec fn function_type_key() -> Seq<char> {
        "function_type"@
    }

    /// The key of the attribute that holds a function's symbol name.
    pub open spec fn symbol_name_key() -> Seq<char> {
        "sym_name"@
    }

    /// The operation declares the function `name` from `arguments` to
    /// `results`: it has exactly the two attributes of a function, and one
    /// region of one block whose arguments are `arguments`.
    pub open spec fn is_function(
        &self,
        name: Seq<char>,
        arguments: Seq<Seq<char>>,
        results: Seq<Seq<char>>,
    ) -> bool {
        &&& self.name@ == Self::function_kind()
        &&& self.keys() == seq![Self::function_type_key(), Self::symbol_name_key()]
        &&& self.values() == seq![function_type_spec(arguments, results), symbol_name_spec(name)]
        &&& self.regions@.len() == 1
        &&& self.regions@[0].blocks@.len() == 1
        &&& self.regions@[0].blocks@[0].argument_types() == arguments
    }

    /// The operations of a function's only block.
    pub open spec fn function_body(&self) -> Vec<Operation>
        recommends
            self.regions@.len() == 1,
            self.regions@[0].blocks@.len() == 1,
    {
        self.regions@[0].blocks@[0].operations
    }

    /// Assembles the operation that declares the function `name`. Its entry
    /// block takes `arg_types`; `build` sees that block and gives the
    /// operations that fill it.
    pub fn function<F: FnOnce(&Block) -> Vec<Operation>>(
        name: &str,
        arg_types: Vec<String>,
        result_types: &Vec<String>,
        build: F,
    ) -> (operation: Operation)
        requires
            forall|entry: Block| #[trigger]
                entry.is_entry(arg_types.deep_view()) ==> call_requires(build, (&entry,)),
            forall|entry: Block, operations: Vec<Operation>| #[trigger]
                call_ensures(build, (&entry,), operations) ==> well_formed(operations@),
        ensures
            operation.wf(),
            operation.is_function(name@, arg_types.deep_view(), result_types.deep_view()),
            exists|entry: Block| #[trigger]
                entry.is_entry(arg_types.deep_view()) && call_ensures(
                    build,
                    (&entry,),
                    operation.function_body(),
                ),
    {
        let function_type = function_type_text(&arg_types, result_types);
        let symbol_name = symbol_name_text(name);
        let ghost arguments = arg_types.deep_view();
        let mut block = Block::new(arg_types);
        let ghost entry = block;
        let operations = build(&block);
        block.operations = operations;
        assert(block.wf());
        let mut region = Region::new();
        region.append_block(block);
        let mut operation = Operation::new("func.func");
        proof {
            reveal_strlit("function_type");
            reveal_strlit("sym_name");
        }
        assert(operation.keys() =~= Seq::<Seq<char>>::empty());
        assert(operation.values() =~= Seq::<Seq<char>>::empty());
        operation.set_attribute("function_type", function_type.as_str());
        assert(operation.keys() =~= seq![Self::function_type_key()]);
        assert(!operation.keys().contains(Self::symbol_name_key())) by {
            assert(Self::function_type_key().len() != Self::symbol_name_key().len());
        }
        operation.set_attribute("sym_name", symbol_name.as_str());
        operation.add_region(region);
        assert(operation.keys() =~= seq![Self::function_type_key(), Self::symbol_name_key()]);
        assert(operation.values() =~= seq![
            function_type_spec(arguments, result_types.deep_view()),
            symbol_name_spec(name@),
        ]);
        assert(entry.is_entry(arguments) && call_ensures(
            build,
            (&entry,),
            operation.function_body(),
        ));
        operation
    }
}

/// What a module's body holds at one position.
#[derive(Debug, PartialEq, Eq)]
pub enum Entry {
    /// An operation that came with the text the module was parsed from. The
    /// library does not look inside it.
    Parsed,
    /// An operation that the builder assembled.
    Built(Operation),
}

/// The single top-level container of a run: the operations of its body in
/// order, and the passes that have been run over it since it was built.
#[derive(Debug, PartialEq, Eq)]
pub struct Module {
    pub body: Vec<Entry>,
    pub passes: Vec<Pass>,
}

impl Module {
    /// Every operation that the builder assembled is well formed.
    pub open spec fn wf(&self) -> bool {
        forall|i: int|
            0 <= i < self.body@.len() ==> ((#[trigger] self.body@[i]) matches Entry::Built(
                operation,
            ) ==> operation.wf())
    }

    /// A module with no operations, which no pass has run over.
    pub fn new() -> (module: Module)
        ensures
            module.body@.len() == 0,
            module.passes@.len() == 0,
            module.wf(),
    {
        Module { body: Vec::new(), passes: Vec::new() }
    }

    /// The module is as a text of `operations` top-level operations left
    /// it: that many parsed entries, and no pass run.
    pub open spec fn is_parsed(&self, operations: usize) -> bool {
        &&& self.body@.len() == operations
        &&& forall|i: int| 0 <= i < operations ==> (#[trigger] self.body@[i]) is Parsed
        &&& self.passes@.len() == 0
    }

    /// The module that a text of `operations` top-level operations parses to.
    pub fn parsed(operations: usize) -> (module: Module)
        ensures
            module.is_parsed(operations),
    {
        let mut body: Vec<Entry> = Vec::new();
        let mut i: usize = 0;
        while i < operations
            invariant
                i <= operations,
                body@.len() == i,
                forall|k: int| 0 <= k < i ==> body@[k] is Parsed,
            decreases operations - i,
        {
            body.push(Entry::Parsed);
            i += 1;
        }
        Module { body, passes: Vec::new() }
    }

    /// The number of operations in the module's body.
    pub fn operation_count(&self) -> (count: usize)
        ensures
            count == self.body@.len(),
    {
        self.body.len()
    }

    /// `self` is `before` with one operation more, at position `index`: the
    /// function `name` from `arguments` to `results`. The operations that
    /// `before` held keep their order, and no pass is recorded or forgotten.
    pub open spec fn is_with_function(
        &self,
        before: Module,
        index: int,
        name: Seq<char>,
        arguments: Seq<Seq<char>>,
        results: Seq<Seq<char>>,
    ) -> bool {
        &&& self.passes == before.passes
        &&& 0 <= index <= before.body@.len()
        &&& self.body@ == before.body@.insert(index, self.body@[index])
        &&& self.body@[index] matches Entry::Built(operation) && operation.wf()
            && operation.is_function(name, arguments, results)
    }

    /// The operations in the only block of the function at position `index`.
    pub open spec fn function_body_at(&self, index: int) -> Vec<Operation> {
        self.body@[index]->0.function_body()
    }

    /// Assembles the function `name` as `Operation::function` does and
    /// inserts it at position `index` of the body. Names already present are
    /// not looked at.
    pub fn create_function<F: FnOnce(&Block) -> Vec<Operation>>(
        &mut self,
        name: &str,
        arg_types: Vec<String>,
        result_types: &Vec<String>,
        index: usize,
        build: F,
    )
        requires
            old(self).wf(),
            index <= old(self).body@.len(),
            forall|entry: Block| #[trigger]
                entry.is_entry(arg_types.deep_view()) ==> call_requires(build, (&entry,)),
            forall|entry: Block, operations: Vec<Operation>| #[trigger]
                call_ensures(build, (&entry,), operations) ==> well_formed(operations@),
        ensures
            final(self).wf(),
            final(self).is_with_function(
                *old(self),
                index as int,
                name@,
                arg_types.deep_view(),
                result_types.deep_view(),
            ),
            exists|entry: Block| #[trigger]
                entry.is_entry(arg_types.deep_view()) && call_ensures(
                    build,
                    (&entry,),
                    final(self).function_body_at(index as int),
                ),
    {
        let operation = Operation::function(name, arg_types, result_types, build);
        self.body.insert(index, Entry::Built(operation));
    }
}

} // verus!
