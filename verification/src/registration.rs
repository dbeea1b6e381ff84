//! A model of the module descriptor handed to the host runtime at load time:
//! the names of the functions the extension registers, in registration order.

use vstd::prelude::*;
use vstd::string::*;

verus! {

/// A module descriptor under construction. Its view is the sequence of
/// registered function names.
pub struct Module {
    functions: Vec<String>,
}

impl View for Module {
    type V = Seq<Seq<char>>;

    closed spec fn view(&self) -> Seq<Seq<char>> {
        self.functions@.map_values(|s: String| s@)
    }
}

impl Module {
    /// A fresh descriptor with no functions registered.
    pub fn new() -> (r: Module)
        ensures
            r@ == Seq::<Seq<char>>::empty(),
    {
        let r = Module { functions: Vec::new() };
        proof {
            assert(r@ =~= Seq::<Seq<char>>::empty());
        }
        r
    }

    /// Registers one more function, by name, at the end of the descriptor.
    pub fn function(self, name: String) -> (r: Module)
        ensures
            r@ == self@.push(name@),
    {
        let ghost pre = self@;
        let ghost name_view = name@;
        let mut functions = self.functions;
        functions.push(name);
        let r = Module { functions };
        proof {
            assert(r@ =~= pre.push(name_view));
        }
        r
    }

    /// How many functions the descriptor registers.
    pub fn function_count(&self) -> (n: usize)
        ensures
            n == self@.len(),
    {
        self.functions.len()
    }

    /// The name of the `i`-th registered function.
    pub fn function_name(&self, i: usize) -> (r: &String)
        requires
            i < self@.len(),
        ensures
            r@ == self@[i as int],
    {
        &self.functions[i]
    }
}

/// What module registration does to a descriptor: it adds the name of the one
/// exported function.
pub open spec fn registered_functions(functions: Seq<Seq<char>>) -> Seq<Seq<char>> {
    functions.push("my_custom_extension"@)
}

/// Builds the module descriptor returned to the host runtime at load time:
/// the given descriptor with the one exported function registered.
pub fn get_module(module: Module) -> (r: Module)
    ensures
        r@ == registered_functions(module@),
{
    module.function(String::from_str("my_custom_extension"))
}

/// Registration, invoked on a fresh descriptor, yields exactly one registered
/// function, named `my_custom_extension`.
pub proof fn lemma_registers_exactly_one(functions: Seq<Seq<char>>)
    requires
        functions.len() == 0,
    ensures
        registered_functions(functions).len() == 1,
        registered_functions(functions)[0] == "my_custom_extension"@,
{
}

} // verus!
