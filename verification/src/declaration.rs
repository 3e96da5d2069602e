//! The declaration-block driver: it owns a rule's ordered declaration lists
//! (normal and `!important`), routes each declaration to the group handlers,
//! and flushes them at the block boundary.

use vstd::prelude::*;
use crate::font::{FontHandler, HandlerM};
use crate::properties::{lemma_props_of_push, props_of, PropM, Property};

verus! {

/// The registered group handlers, offered each declaration in a fixed
/// order. The font group is the one this engine specializes.
#[derive(Debug)]
pub struct DeclarationHandler {
    /// The font group handler.
    pub font: FontHandler,
}

impl View for DeclarationHandler {
    type V = HandlerM;

    open spec fn view(&self) -> HandlerM {
        self.font@
    }
}

impl DeclarationHandler {
    /// Makes a handler set with every group empty.
    pub fn new() -> (r: DeclarationHandler)
        ensures
            r@ == HandlerM::empty(),
            r@.inv(),
    {
        DeclarationHandler { font: FontHandler::new() }
    }

    /// Offers one declaration to each registered group handler in order;
    /// the first that accepts it stops the search.
    pub fn handle_property(&mut self, property: &Property, dest: &mut Vec<Property>) -> (r: bool)
        requires
            old(self)@.inv(),
        ensures
            final(self)@ == old(self)@.handle(property@).0,
            props_of(final(dest)@) == props_of(old(dest)@) + old(self)@.handle(property@).1,
            r == old(self)@.handle(property@).2,
            final(self)@.inv(),
    {
        self.font.handle_property(property, dest)
    }

    /// Flushes every registered group handler in order.
    pub fn finalize(&mut self, dest: &mut Vec<Property>)
        requires
            old(self)@.inv(),
        ensures
            final(self)@ == HandlerM::empty(),
            final(self)@.inv(),
            props_of(final(dest)@) == props_of(old(dest)@) + old(self)@.finalize_out(),
    {
        self.font.finalize(dest)
    }
}

/// What routing one list of declarations through a handler leaves: the
/// handler's final state, and the output produced so far (the declarations
/// the handler declined, unchanged and in order, with each flush's output
/// where it happened).
pub open spec fn process_list(h: HandlerM, props: Seq<PropM>) -> (HandlerM, Seq<PropM>)
    decreases props.len(),
{
    if props.len() == 0 {
        (h, seq![])
    } else {
        let step = h.handle(props[0]);
        let tail = process_list(step.0, props.drop_first());
        (
            tail.0,
            step.1 + (if step.2 {
                seq![]
            } else {
                seq![props[0]]
            }) + tail.1,
        )
    }
}

/// What a whole block leaves: the routed output, then what the final flush
/// emits.
pub open spec fn process_block(h: HandlerM, props: Seq<PropM>) -> Seq<PropM> {
    let done = process_list(h, props);
    done.1 + done.0.finalize_out()
}

/// The mathematical model of a declaration block.
pub struct BlockM {
    /// The normal declarations, in order.
    pub declarations: Seq<PropM>,
    /// The `!important` declarations, in order.
    pub important_declarations: Seq<PropM>,
}

/// A rule's declarations: an ordered list of normal declarations and an
/// ordered list of `!important` ones, folded independently so that the two
/// levels are never combined into one shorthand.
#[derive(Debug)]
pub struct DeclarationBlock {
    /// The normal declarations, in order.
    pub declarations: Vec<Property>,
    /// The `!important` declarations, in order.
    pub important_declarations: Vec<Property>,
}

impl View for DeclarationBlock {
    type V = BlockM;

    open spec fn view(&self) -> BlockM {
        BlockM {
            declarations: props_of(self.declarations@),
            important_declarations: props_of(self.important_declarations@),
        }
    }
}

/// Routes one list through a handler and returns the minimized list.
fn minify_list(handler: &mut DeclarationHandler, decls: &Vec<Property>) -> (out: Vec<Property>)
    requires
        old(handler)@.inv(),
    ensures
        final(handler)@ == HandlerM::empty(),
        final(handler)@.inv(),
        props_of(out@) == process_block(old(handler)@, props_of(decls@)),
    {
    let ghost all = props_of(decls@);
    let ghost h0 = old(handler)@;
    let mut out: Vec<Property> = Vec::new();
    let n = decls.len();
    let mut i: usize = 0;
    proof {
        assert(all.skip(0) =~= all);
        assert(props_of(out@) =~= Seq::<PropM>::empty());
        assert(props_of(out@) + process_block(handler@, all.skip(0)) =~= process_block(h0, all));
    }
    while i < n
        invariant
            handler@.inv(),
            n == decls.len(),
            i <= n,
            all == props_of(decls@),
            process_block(h0, all) == props_of(out@) + process_block(
                handler@,
                all.skip(i as int),
            ),
        decreases n - i,
    {
        let ghost h_cur = handler@;
        let ghost out0 = props_of(out@);
        let ghost rest = all.skip(i as int);
        let accepted = handler.handle_property(&decls[i], &mut out);
        if !accepted {
            let ghost d = out@;
            out.push(decls[i].duplicate());
            proof {
                lemma_props_of_push(d, out@.last());
            }
        }
        proof {
            assert(rest[0] == all[i as int]);
            assert(rest.drop_first() =~= all.skip(i as int + 1));
            let step = h_cur.handle(rest[0]);
            assert(process_block(h_cur, rest) == step.1 + (if step.2 {
                Seq::<PropM>::empty()
            } else {
                seq![rest[0]]
            }) + process_block(step.0, rest.drop_first()));
            if accepted {
                assert(props_of(out@) =~= out0 + step.1 + Seq::<PropM>::empty());
            } else {
                assert(props_of(out@) =~= out0 + step.1 + seq![rest[0]]);
            }
            assert(props_of(out@) + process_block(handler@, all.skip(i as int + 1)) =~=
                out0 + process_block(h_cur, rest));
        }
        i = i + 1;
    }
    proof {
        assert(all.skip(n as int) =~= Seq::<PropM>::empty());
    }
    handler.finalize(&mut out);
    proof {
        assert(props_of(out@) =~= process_block(h0, all));
    }
    out
}

impl DeclarationBlock {
    /// Makes an empty block.
    pub fn new() -> (r: DeclarationBlock)
        ensures
            r@.declarations.len() == 0,
            r@.important_declarations.len() == 0,
    {
        DeclarationBlock { declarations: Vec::new(), important_declarations: Vec::new() }
    }

    /// Minimizes the block: each list is routed through its own handler set
    /// and every handler is flushed at the end, so declarations of the two
    /// importance levels are never folded together.
    pub fn minify(
        &mut self,
        handler: &mut DeclarationHandler,
        important_handler: &mut DeclarationHandler,
    )
        requires
            old(handler)@.inv(),
            old(important_handler)@.inv(),
        ensures
            final(handler)@ == HandlerM::empty(),
            final(important_handler)@ == HandlerM::empty(),
            final(self)@.declarations == process_block(
                old(handler)@,
                old(self)@.declarations,
            ),
            final(self)@.important_declarations == process_block(
                old(important_handler)@,
                old(self)@.important_declarations,
            ),
    {
        let normal = minify_list(handler, &self.declarations);
        self.declarations = normal;
        let important = minify_list(important_handler, &self.important_declarations);
        self.important_declarations = important;
    }
}

} // verus!
