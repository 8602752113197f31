//! The property specification and the fragments generated from it.

use vstd::prelude::*;

use crate::camel::{camel_of, to_camel_case};

verus! {

/// The mathematical value of a [`QProperty`]: its two texts as character
/// sequences and its three switches.
pub struct PropertySpec {
    pub the_type: Seq<char>,
    pub the_name: Seq<char>,
    pub settable: bool,
    pub notifiable: bool,
    pub const_ref: bool,
}

/// `PROPERTY(`
pub open spec fn declaration_open() -> Seq<char> {
    seq!['P', 'R', 'O', 'P', 'E', 'R', 'T', 'Y', '(']
}

/// ` WRITE ` followed by the setter's name.
pub open spec fn write_clause(setter_name: Seq<char>) -> Seq<char> {
    seq![' ', 'W', 'R', 'I', 'T', 'E', ' '] + setter_name
}

/// ` NOTIFY ` followed by the notifier's name.
pub open spec fn notify_clause(notify_name: Seq<char>) -> Seq<char> {
    seq![' ', 'N', 'O', 'T', 'I', 'F', 'Y', ' '] + notify_name
}

/// The declaration line for given setter and notifier names: the clauses
/// appear only where the matching switch is on.
pub open spec fn declaration_text(
    p: PropertySpec,
    setter_name: Seq<char>,
    notify_name: Seq<char>,
) -> Seq<char> {
    declaration_open() + p.the_type + seq![' '] + p.the_name + (if p.settable {
        write_clause(setter_name)
    } else {
        Seq::empty()
    }) + (if p.notifiable {
        notify_clause(notify_name)
    } else {
        Seq::empty()
    }) + seq![')']
}

/// `<type> <name>() const;`
pub open spec fn getter_text(p: PropertySpec) -> Seq<char> {
    p.the_type + seq![' '] + p.the_name + seq!['(', ')', ' ', 'c', 'o', 'n', 's', 't', ';']
}

/// `const <type> &<name>` for a const-reference parameter, else `<type> <name>`.
pub open spec fn parameter_text(p: PropertySpec) -> Seq<char> {
    if p.const_ref {
        seq!['c', 'o', 'n', 's', 't', ' '] + p.the_type + seq![' ', '&'] + p.the_name
    } else {
        p.the_type + seq![' '] + p.the_name
    }
}

/// `void <fn_name>(<parameter>);`, the shape of the setter and the notifier.
pub open spec fn signature_text(p: PropertySpec, fn_name: Seq<char>) -> Seq<char> {
    seq!['v', 'o', 'i', 'd', ' '] + fn_name + seq!['('] + parameter_text(p) + seq![')', ';']
}

/// The setter's name: `set_<name>` in camel case.
pub open spec fn setter_name_of(name: Seq<char>) -> Seq<char> {
    camel_of(seq!['s', 'e', 't', '_'] + name)
}

/// The notifier's name in the declaration: `<name>Changed` in camel case.
pub open spec fn notify_name_of(name: Seq<char>) -> Seq<char> {
    camel_of(name + seq!['C', 'h', 'a', 'n', 'g', 'e', 'd'])
}

/// The notifier's name in its signature: `<name>_changed` in camel case.
pub open spec fn changed_name_of(name: Seq<char>) -> Seq<char> {
    camel_of(name + seq!['_', 'c', 'h', 'a', 'n', 'g', 'e', 'd'])
}

/// The declaration that [`QProperty::declaration`] produces.
pub open spec fn declaration_of(p: PropertySpec) -> Seq<char> {
    declaration_text(p, setter_name_of(p.the_name), notify_name_of(p.the_name))
}

/// The setter signature that [`QProperty::setter`] produces.
pub open spec fn setter_of(p: PropertySpec) -> Seq<char> {
    signature_text(p, setter_name_of(p.the_name))
}

/// The notifier signature that [`QProperty::notifier`] produces.
pub open spec fn notifier_of(p: PropertySpec) -> Seq<char> {
    signature_text(p, changed_name_of(p.the_name))
}

/// The four fragments, each followed by a line break, for given names.
pub open spec fn summary_text(
    p: PropertySpec,
    setter_name: Seq<char>,
    notify_name: Seq<char>,
    changed_name: Seq<char>,
) -> Seq<char> {
    declaration_text(p, setter_name, notify_name) + seq!['\n'] + getter_text(p) + seq!['\n']
        + signature_text(p, setter_name) + seq!['\n'] + signature_text(p, changed_name) + seq![
        '\n',
    ]
}

/// The text that [`QProperty::summery`] produces.
pub open spec fn summary_of(p: PropertySpec) -> Seq<char> {
    summary_text(
        p,
        setter_name_of(p.the_name),
        notify_name_of(p.the_name),
        changed_name_of(p.the_name),
    )
}

/// A snapshot of what the user chose: the property's type and name, whether it
/// has a setter, whether it has a change notifier, and whether the setter and
/// notifier take their parameter by const reference.
pub struct QProperty {
    the_type: String,
    the_name: String,
    settable: bool,
    notifiable: bool,
    const_ref: bool,
}

impl View for QProperty {
    type V = PropertySpec;

    closed spec fn view(&self) -> PropertySpec {
        PropertySpec {
            the_type: self.the_type@,
            the_name: self.the_name@,
            settable: self.settable,
            notifiable: self.notifiable,
            const_ref: self.const_ref,
        }
    }
}

impl QProperty {
    /// Takes the snapshot. No text is checked: whatever is given ends up in
    /// the fragments as it is.
    pub fn new(
        the_type: String,
        the_name: String,
        settable: bool,
        notifiable: bool,
        const_ref: bool,
    ) -> (r: QProperty)
        ensures
            r@ == (PropertySpec {
                the_type: the_type@,
                the_name: the_name@,
                settable,
                notifiable,
                const_ref,
            }),
    {
        QProperty { the_type, the_name, settable, notifiable, const_ref }
    }

    /// `<type> <name>() const;`, whatever the switches.
    pub fn getter(&self) -> (r: String)
        ensures
            r@ == getter_text(self@),
    {
        let mut r = self.the_type.clone();
        r.append(" ");
        r.append(self.the_name.as_str());
        r.append("() const;");
        proof {
            reveal_strlit(" ");
            reveal_strlit("() const;");
        }
        assert(r@ =~= getter_text(self@));
        r
    }

    /// The parameter of the setter and the notifier.
    pub fn parameters(&self) -> (r: String)
        ensures
            r@ == parameter_text(self@),
    {
        proof {
            reveal_strlit("const ");
            reveal_strlit(" &");
            reveal_strlit(" ");
        }
        if self.const_ref {
            let mut r = String::from_str("const ");
            r.append(self.the_type.as_str());
            r.append(" &");
            r.append(self.the_name.as_str());
            assert(r@ =~= parameter_text(self@));
            r
        } else {
            let mut r = self.the_type.clone();
            r.append(" ");
            r.append(self.the_name.as_str());
            assert(r@ =~= parameter_text(self@));
            r
        }
    }

    /// The declaration line for given setter and notifier names:
    /// `PROPERTY(<type> <name>`, then ` WRITE <setter_name>` if the property is
    /// settable, then ` NOTIFY <notify_name>` if it is notifiable, then `)`.
    pub fn declaration_with(&self, setter_name: &str, notify_name: &str) -> (r: String)
        ensures
            r@ == declaration_text(self@, setter_name@, notify_name@),
    {
        proof {
            reveal_strlit("PROPERTY(");
            reveal_strlit(" ");
            reveal_strlit(" WRITE ");
            reveal_strlit(" NOTIFY ");
            reveal_strlit(")");
        }
        let mut r = String::from_str("PROPERTY(");
        r.append(self.the_type.as_str());
        r.append(" ");
        r.append(self.the_name.as_str());
        let ghost head = r@;
        if self.settable {
            r.append(" WRITE ");
            r.append(setter_name);
        }
        let ghost with_write = r@;
        assert(with_write =~= head + (if self.settable {
            write_clause(setter_name@)
        } else {
            Seq::empty()
        }));
        if self.notifiable {
            r.append(" NOTIFY ");
            r.append(notify_name);
        }
        let ghost with_notify = r@;
        assert(with_notify =~= with_write + (if self.notifiable {
            notify_clause(notify_name@)
        } else {
            Seq::empty()
        }));
        r.append(")");
        assert(r@ =~= declaration_text(self@, setter_name@, notify_name@));
        r
    }

    /// The declaration line, with the setter named `set_<name>` and the
    /// notifier `<name>Changed`, both in camel case.
    pub fn declaration(&self) -> (r: String)
        ensures
            r@ == declaration_of(self@),
    {
        let setter_name = self.setter_name();
        let notify_name = self.notify_name();
        self.declaration_with(setter_name.as_str(), notify_name.as_str())
    }

    /// `set_<name>` in camel case.
    fn setter_name(&self) -> (r: String)
        ensures
            r@ == setter_name_of(self@.the_name),
    {
        proof {
            reveal_strlit("set_");
        }
        let mut source = String::from_str("set_");
        source.append(self.the_name.as_str());
        assert(source@ =~= seq!['s', 'e', 't', '_'] + self@.the_name);
        to_camel_case(source.as_str())
    }

    /// `<name>Changed` in camel case.
    fn notify_name(&self) -> (r: String)
        ensures
            r@ == notify_name_of(self@.the_name),
    {
        proof {
            reveal_strlit("Changed");
        }
        let mut source = self.the_name.clone();
        source.append("Changed");
        assert(source@ =~= self@.the_name + seq!['C', 'h', 'a', 'n', 'g', 'e', 'd']);
        to_camel_case(source.as_str())
    }

    /// `<name>_changed` in camel case.
    fn changed_name(&self) -> (r: String)
        ensures
            r@ == changed_name_of(self@.the_name),
    {
        proof {
            reveal_strlit("_changed");
        }
        let mut source = self.the_name.clone();
        source.append("_changed");
        assert(source@ =~= self@.the_name + seq!['_', 'c', 'h', 'a', 'n', 'g', 'e', 'd']);
        to_camel_case(source.as_str())
    }

    /// `void <fn_name>(<parameter>);`
    fn signature(&self, fn_name: &str) -> (r: String)
        ensures
            r@ == signature_text(self@, fn_name@),
    {
        proof {
            reveal_strlit("void ");
            reveal_strlit("(");
            reveal_strlit(");");
        }
        let parameter = self.parameters();
        let mut r = String::from_str("void ");
        r.append(fn_name);
        r.append("(");
        r.append(parameter.as_str());
        r.append(");");
        assert(r@ =~= signature_text(self@, fn_name@));
        r
    }

    /// The setter's signature for a given setter name.
    pub fn setter_with(&self, setter_name: &str) -> (r: String)
        ensures
            r@ == signature_text(self@, setter_name@),
    {
        self.signature(setter_name)
    }

    /// `void <setter>(<parameter>);`, the setter named `set_<name>` in camel case.
    pub fn setter(&self) -> (r: String)
        ensures
            r@ == setter_of(self@),
    {
        let setter_name = self.setter_name();
        self.setter_with(setter_name.as_str())
    }

    /// The notifier's signature for a given notifier name.
    pub fn notifier_with(&self, changed_name: &str) -> (r: String)
        ensures
            r@ == signature_text(self@, changed_name@),
    {
        self.signature(changed_name)
    }

    /// `void <notifier>(<parameter>);`, the notifier named `<name>_changed` in
    /// camel case.
    pub fn notifier(&self) -> (r: String)
        ensures
            r@ == notifier_of(self@),
    {
        let changed_name = self.changed_name();
        self.notifier_with(changed_name.as_str())
    }

    /// The declaration, the getter, the setter and the notifier for given
    /// names, in that order, each followed by a line break.
    pub fn summery_with(&self, setter_name: &str, notify_name: &str, changed_name: &str) -> (r:
        String)
        ensures
            r@ == summary_text(self@, setter_name@, notify_name@, changed_name@),
    {
        proof {
            reveal_strlit("\n");
        }
        let mut r = self.declaration_with(setter_name, notify_name);
        r.append("\n");
        let getter = self.getter();
        r.append(getter.as_str());
        r.append("\n");
        let setter = self.setter_with(setter_name);
        r.append(setter.as_str());
        r.append("\n");
        let notifier = self.notifier_with(changed_name);
        r.append(notifier.as_str());
        r.append("\n");
        assert(r@ =~= summary_text(self@, setter_name@, notify_name@, changed_name@));
        r
    }

    /// The declaration, the getter, the setter and the notifier, in that
    /// order, each followed by a line break.
    pub fn summery(&self) -> (r: String)
        ensures
            r@ == summary_of(self@),
    {
        let setter_name = self.setter_name();
        let notify_name = self.notify_name();
        let changed_name = self.changed_name();
        self.summery_with(setter_name.as_str(), notify_name.as_str(), changed_name.as_str())
    }
}

} // verus!
