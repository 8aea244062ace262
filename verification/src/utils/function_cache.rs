//! The checked variants of the declared functions.

use crate::modules::block::Block;
use crate::modules::model::InstanceV;
use crate::modules::types::Type;
use vstd::prelude::*;

verus! {

/// One variant of a function: the types of its arguments, the type of its
/// result, and its body checked for these types.
#[derive(Debug, PartialEq, Eq)]
pub struct FunctionInstance {
    pub variant_id: usize,
    pub args: Vec<Type>,
    pub returns: Type,
    pub block: Block,
    /// The global id of the first parameter; the others follow.
    pub first_var_id: usize,
}

impl View for FunctionInstance {
    type V = InstanceV;

    open spec fn view(&self) -> InstanceV {
        InstanceV {
            variant_id: self.variant_id,
            args: self.args@,
            returns: self.returns,
            block: self.block.model(),
            first_var_id: self.first_var_id,
        }
    }
}

/// The variants of every declared function. The variants of the function
/// with id `i` stand at position `i`, each at the position of its own id.
#[derive(Debug, PartialEq, Eq)]
pub struct FunctionCache {
    pub funs: Vec<Vec<FunctionInstance>>,
}

impl FunctionCache {
    /// The views of the variants of one function.
    pub open spec fn variants(instances: Vec<FunctionInstance>) -> Seq<InstanceV> {
        Seq::new(instances@.len(), |i: int| instances@[i]@)
    }

    /// The view of the cache.
    pub open spec fn model(self) -> Seq<Seq<InstanceV>> {
        Seq::new(self.funs@.len(), |i: int| Self::variants(self.funs@[i]))
    }

    /// The cache without functions.
    pub fn new() -> (r: Self)
        ensures
            r.model() == Seq::<Seq<InstanceV>>::empty(),
    {
        let r = FunctionCache { funs: Vec::new() };
        assert(r.model() =~= Seq::<Seq<InstanceV>>::empty());
        r
    }
}

impl View for FunctionCache {
    type V = Seq<Seq<InstanceV>>;

    open spec fn view(&self) -> Seq<Seq<InstanceV>> {
        self.model()
    }
}


impl FunctionCache {
    /// Makes room for the variants of one more function.
    pub fn add_declaration(&mut self)
        ensures
            final(self).model() == old(self).model().push(Seq::empty()),
    {
        let fresh: Vec<FunctionInstance> = Vec::new();
        assert(Self::variants(fresh) =~= Seq::<InstanceV>::empty());
        self.funs.push(fresh);
        assert(self.model() =~= old(self).model().push(Seq::empty()));
    }

    /// The number of variants of the function `id`.
    pub fn variants_of(&self, id: usize) -> (r: usize)
        requires
            id < self.model().len(),
        ensures
            r == self.model()[id as int].len(),
    {
        self.funs[id].len()
    }

    /// The id of the first variant of the function `id` whose argument
    /// types are `args`.
    pub fn find_variant(&self, id: usize, args: &Vec<Type>) -> (r: Option<usize>)
        requires
            id < self.model().len(),
        ensures
            match r {
                Some(variant) => crate::modules::typing::find_variant(
                    self.model()[id as int],
                    args@,
                    0,
                ) == Some(variant as int) && variant < self.model()[id as int].len()
                    && self.model()[id as int][variant as int].args == args@,
                None => crate::modules::typing::find_variant(self.model()[id as int], args@, 0)
                    is None,
            },
    {
        let instances = &self.funs[id];
        let ghost all = self.model()[id as int];
        let mut i: usize = 0;
        while i < instances.len()
            invariant
                i <= instances@.len(),
                all == Self::variants(*instances),
                all == self.model()[id as int],
                crate::modules::typing::find_variant(all, args@, 0)
                    == crate::modules::typing::find_variant(all, args@, i as int),
            decreases instances.len() - i,
        {
            assert(all[i as int] == instances@[i as int]@);
            if crate::modules::types::same_types(&instances[i].args, args) {
                return Some(i);
            }
            i = i + 1;
        }
        None
    }

    /// The type of the result of the variant `variant` of the function
    /// `id`.
    pub fn returns_of(&self, id: usize, variant: usize) -> (r: Type)
        requires
            id < self.model().len(),
            variant < self.model()[id as int].len(),
        ensures
            r == self.model()[id as int][variant as int].returns,
    {
        self.funs[id][variant].returns.clone()
    }

    /// Adds `instance` as the next variant of the function `id` and gives
    /// the id of the variant.
    pub fn add_instance(&mut self, id: usize, instance: FunctionInstance) -> (r: usize)
        requires
            id < old(self).model().len(),
        ensures
            r == old(self).model()[id as int].len(),
            final(self).model() == old(self).model().update(
                id as int,
                old(self).model()[id as int].push(
                    InstanceV {
                        variant_id: r,
                        args: instance.args@,
                        returns: instance.returns,
                        block: instance.block.model(),
                        first_var_id: instance.first_var_id,
                    },
                ),
            ),
    {
        let ghost before = self.model();
        let mut variants = self.funs.remove(id);
        let ghost old_variants = Self::variants(variants);
        assert(old_variants == before[id as int]);
        let variant = variants.len();
        let mut instance = instance;
        instance.variant_id = variant;
        variants.push(instance);
        assert(Self::variants(variants) =~= old_variants.push(instance@));
        self.funs.insert(id, variants);
        assert(self.model() =~= before.update(id as int, old_variants.push(instance@)));
        variant
    }
}

} // verus!
