//! The rule wrapper: a selector list, consumed opaquely as already-written
//! text, with the declaration block it applies to.

use vstd::prelude::*;
use crate::declaration::{process_block, BlockM, DeclarationBlock, DeclarationHandler};
use crate::font::HandlerM;
use crate::printer::Printer;
use crate::properties::{prop_css, PropM, Property};

verus! {

/// The text one declaration contributes to a block: its CSS text, an
/// `!important` marker where it is important, and a terminating semicolon,
/// followed by a space when not minifying.
pub open spec fn decl_item_css(p: PropM, important: bool, minify: bool) -> Seq<char> {
    prop_css(p, minify) + (if important {
        if minify {
            "!important"@
        } else {
            " !important"@
        }
    } else {
        seq![]
    }) + (if minify {
        ";"@
    } else {
        "; "@
    })
}

/// The text of a declaration list, from the declaration at `i` on.
pub open spec fn decls_css_from(props: Seq<PropM>, i: int, important: bool, minify: bool) -> Seq<
    char,
>
    decreases props.len() - i,
{
    if 0 <= i < props.len() {
        decl_item_css(props[i], important, minify) + decls_css_from(props, i + 1, important, minify)
    } else {
        seq![]
    }
}

/// The text of a whole block's declarations: the normal list, then the
/// `!important` list.
pub open spec fn block_css(b: BlockM, minify: bool) -> Seq<char> {
    decls_css_from(b.declarations, 0, false, minify) + decls_css_from(
        b.important_declarations,
        0,
        true,
        minify,
    )
}

/// The text of a whole rule: the selector text and the braced block.
pub open spec fn rule_css(selectors: Seq<char>, b: BlockM, minify: bool) -> Seq<char> {
    selectors + (if minify {
        "{"@
    } else {
        " { "@
    }) + block_css(b, minify) + "}"@
}

/// Writes one declaration list.
fn decls_to_css(decls: &Vec<Property>, important: bool, dest: &mut Printer)
    ensures
        final(dest).minify == old(dest).minify,
        final(dest).dest@ == old(dest).dest@ + decls_css_from(
            crate::properties::props_of(decls@),
            0,
            important,
            old(dest).minify,
        ),
{
    let ghost ps = crate::properties::props_of(decls@);
    let ghost base = dest.dest@;
    let mut i: usize = 0;
    proof {
        assert(base + decls_css_from(ps, 0, important, dest.minify) =~= dest.dest@
            + decls_css_from(ps, 0, important, dest.minify));
    }
    while i < decls.len()
        invariant
            i <= decls.len(),
            ps == crate::properties::props_of(decls@),
            dest.minify == old(dest).minify,
            base + decls_css_from(ps, 0, important, dest.minify) == dest.dest@ + decls_css_from(
                ps,
                i as int,
                important,
                dest.minify,
            ),
        decreases decls.len() - i,
    {
        let ghost before = dest.dest@;
        decls[i].to_css(dest);
        if important {
            if dest.minify {
                dest.write_str("!important");
            } else {
                dest.write_str(" !important");
            }
        }
        if dest.minify {
            dest.write_str(";");
        } else {
            dest.write_str("; ");
        }
        proof {
            assert(dest.dest@ =~= before + decl_item_css(ps[i as int], important, dest.minify));
            assert(dest.dest@ + decls_css_from(ps, i as int + 1, important, dest.minify) =~= before
                + decls_css_from(ps, i as int, important, dest.minify));
        }
        i = i + 1;
    }
    proof {
        assert(dest.dest@ =~= dest.dest@ + decls_css_from(
            ps,
            decls@.len() as int,
            important,
            dest.minify,
        ));
    }
}

impl DeclarationBlock {
    /// Writes the CSS text of the block's declarations: the normal list,
    /// then the `!important` list.
    pub fn to_css(&self, dest: &mut Printer)
        ensures
            final(dest).minify == old(dest).minify,
            final(dest).dest@ == old(dest).dest@ + block_css(self@, old(dest).minify),
    {
        let ghost base = dest.dest@;
        decls_to_css(&self.declarations, false, dest);
        decls_to_css(&self.important_declarations, true, dest);
        proof {
            assert(dest.dest@ =~= base + block_css(self@, dest.minify));
        }
    }
}

/// A style rule: a selector list, held as already-serialized text the
/// engine never inspects, and the declarations it applies.
#[derive(Debug)]
pub struct StyleRule {
    /// The selector text, written by the surrounding system.
    pub selectors: String,
    /// The declarations of the rule.
    pub declarations: DeclarationBlock,
}

impl StyleRule {
    /// Minimizes the rule's declarations through the given handler sets.
    pub fn minify(
        &mut self,
        handler: &mut DeclarationHandler,
        important_handler: &mut DeclarationHandler,
    )
        requires
            old(handler)@.inv(),
            old(important_handler)@.inv(),
        ensures
            final(self).selectors == old(self).selectors,
            final(handler)@ == HandlerM::empty(),
            final(important_handler)@ == HandlerM::empty(),
            final(self).declarations@.declarations == process_block(
                old(handler)@,
                old(self).declarations@.declarations,
            ),
            final(self).declarations@.important_declarations == process_block(
                old(important_handler)@,
                old(self).declarations@.important_declarations,
            ),
    {
        self.declarations.minify(handler, important_handler);
    }

    /// Writes the CSS text of the rule: the selector text, then the braced
    /// declaration block.
    pub fn to_css(&self, dest: &mut Printer)
        ensures
            final(dest).minify == old(dest).minify,
            final(dest).dest@ == old(dest).dest@ + rule_css(
                self.selectors@,
                self.declarations@,
                old(dest).minify,
            ),
    {
        let ghost base = dest.dest@;
        dest.write_str(self.selectors.as_str());
        if dest.minify {
            dest.write_str("{");
        } else {
            dest.write_str(" { ");
        }
        self.declarations.to_css(dest);
        dest.write_str("}");
        proof {
            assert(dest.dest@ =~= base + rule_css(self.selectors@, self.declarations@, dest.minify));
        }
    }
}

} // verus!
