//! Actor declarations: options, specs, slots for cyclic wiring, and the nodes
//! that supervision trees hold.
use std::marker::PhantomData;
use vstd::prelude::*;

use crate::binding::BindingCore;
use crate::callbacks::SizeHint;
use crate::delivery::ActorRef;
use crate::host::{RunnableActor, RunnableActorBuilder};
use crate::mailbox::{Mailbox, MailboxKind};
use crate::policy::{MailboxShutdown, RestartMode, RestartPolicy, Shutdown};

verus! {

/// Restart-intensity window of one child.
#[derive(Clone, Copy, Debug, PartialEq, Eq, Structural)]
pub struct RestartConfig {
    /// Restarts allowed within the window.
    pub max_restarts: u64,
    /// Length of the window, in nanoseconds.
    pub within: u64,
}

/// What happens to a membership after its terminal exit.
#[derive(Clone, Copy, Debug, PartialEq, Eq, Structural)]
pub enum TerminalMembership {
    /// It stays visible.
    Retain,
    /// It is removed.
    Remove,
}

/// Why actor options are invalid.
#[derive(Clone, Copy, Debug, PartialEq, Eq, Structural)]
pub enum ActorOptionsValidationError {
    /// The mailbox would hold nothing.
    ZeroMailboxCapacity,
}

impl ActorOptionsValidationError {
    /// Describes the error.
    pub fn message(self) -> (text: String)
        ensures
            text@ == "actor mailbox capacity must be non-zero"@,
    {
        "actor mailbox capacity must be non-zero".to_owned()
    }
}

/// Mailbox portion of an actor declaration.
#[verifier::reject_recursive_types(M)]
pub struct ActorOptions<M> {
    /// Storage policy.
    pub mailbox: Mailbox<M>,
    /// What measures accepted messages, where sizes are observed.
    pub size_hint: Option<SizeHint<M>>,
    /// Capacity for this actor alone.
    pub mailbox_capacity: Option<usize>,
}

impl<M> Clone for ActorOptions<M> {
    fn clone(&self) -> (options: Self)
        ensures
            options == *self,
    {
        ActorOptions {
            mailbox: self.mailbox.clone(),
            size_hint: match &self.size_hint {
                Some(size_hint) => Some(size_hint.clone()),
                None => None,
            },
            mailbox_capacity: self.mailbox_capacity,
        }
    }
}

/// Messages are measured with `function`.
pub open spec fn measured_by<M, F: Fn(&M) -> usize>(
    size_hint: Option<SizeHint<M>>,
    function: F,
) -> bool {
    size_hint matches Some(size_hint) && forall|message: M, size: usize| #[trigger]
        size_hint.measures(message, size) <==> call_ensures(function, (&message,), size)
}

impl<M> ActorOptions<M> {
    /// The capacity these options ask for, where they ask for one.
    pub open spec fn own_capacity(&self) -> Option<usize> {
        match self.mailbox_capacity {
            Some(capacity) => Some(capacity),
            None => self.mailbox.capacity,
        }
    }

    /// The options are those of `other` but for the mailbox capacity.
    pub open spec fn keeps_mailbox(&self, other: &Self) -> bool {
        self.mailbox == other.mailbox && self.size_hint == other.size_hint
    }

    /// Creates options using a FIFO queue without message-size observation.
    pub fn new() -> (options: Self)
        ensures
            options.mailbox.storage() == MailboxKind::Queue,
            options.mailbox.capacity is None,
            options.size_hint is None,
            options.mailbox_capacity is None,
    {
        ActorOptions {
            mailbox: Mailbox::inherited_queue(),
            size_hint: None,
            mailbox_capacity: None,
        }
    }

    /// What validation says.
    pub open spec fn checks(&self, valid: Result<(), ActorOptionsValidationError>) -> bool {
        valid == if self.own_capacity() == Some(0usize) {
            Err::<(), _>(ActorOptionsValidationError::ZeroMailboxCapacity)
        } else {
            Ok(())
        }
    }

    /// Rejects a zero mailbox capacity.
    pub fn validate(&self) -> (valid: Result<(), ActorOptionsValidationError>)
        ensures
            self.checks(valid),
    {
        let own = match self.mailbox_capacity {
            Some(capacity) => Some(capacity),
            None => self.mailbox.capacity,
        };
        match own {
            Some(capacity) => if capacity == 0 {
                Err(ActorOptionsValidationError::ZeroMailboxCapacity)
            } else {
                Ok(())
            },
            None => Ok(()),
        }
    }

    /// The options with that capacity.
    pub open spec fn sets_capacity(&self, capacity: usize, options: Self) -> bool {
        &&& options.keeps_mailbox(self)
        &&& options.mailbox_capacity == Some(capacity)
    }

    /// Overrides the hosting scope's mailbox capacity for this actor alone.
    pub fn mailbox_capacity(self, capacity: usize) -> (options: Self)
        ensures
            self.sets_capacity(capacity, options),
    {
        ActorOptions {
            mailbox: self.mailbox,
            size_hint: self.size_hint,
            mailbox_capacity: Some(capacity),
        }
    }

    /// The options with that mailbox.
    pub open spec fn sets_mailbox(&self, mailbox: Mailbox<M>, options: Self) -> bool {
        &&& options.mailbox == mailbox
        &&& options.size_hint == self.size_hint
        &&& options.mailbox_capacity == self.mailbox_capacity
    }

    /// Selects the actor's mailbox storage policy.
    pub fn mailbox(self, mailbox: Mailbox<M>) -> (options: Self)
        ensures
            self.sets_mailbox(mailbox, options),
    {
        ActorOptions {
            mailbox,
            size_hint: self.size_hint,
            mailbox_capacity: self.mailbox_capacity,
        }
    }

    /// Turns accepted-message byte observation on, using `size_hint`.
    pub fn message_size<F>(self, size_hint: F) -> (options: Self) where
        F: Fn(&M) -> usize + Send + Sync + 'static,

        requires
            crate::callbacks::is_sizer::<M, F>(size_hint),
        ensures
            options.mailbox == self.mailbox,
            options.mailbox_capacity == self.mailbox_capacity,
            measured_by(options.size_hint, size_hint),
    {
        ActorOptions {
            mailbox: self.mailbox,
            size_hint: Some(SizeHint::new(size_hint)),
            mailbox_capacity: self.mailbox_capacity,
        }
    }
}

impl<M> Default for ActorOptions<M> {
    fn default() -> (options: Self)
        ensures
            options.mailbox.storage() == MailboxKind::Queue,
            options.mailbox.capacity is None,
            options.size_hint is None,
            options.mailbox_capacity is None,
    {
        ActorOptions::new()
    }
}

/// Text of an optional restart policy.
pub open spec fn restart_text(restart: Option<RestartPolicy>) -> Seq<char> {
    match restart {
        None => "None"@,
        Some(restart) => "Some(RestartPolicy { mode: "@ + match restart.mode {
            RestartMode::Always => "Always"@,
            RestartMode::OnFailure => "OnFailure"@,
            RestartMode::Never => "Never"@,
        } + " })"@,
    }
}

/// Text of an optional shutdown policy.
pub open spec fn shutdown_text(shutdown: Option<Shutdown>) -> Seq<char> {
    match shutdown {
        None => "None"@,
        Some(Shutdown::Abort) => "Some(Abort)"@,
        Some(Shutdown::Graceful { grace }) => "Some(Graceful { grace: "@
            + crate::host::duration_text(grace) + " })"@,
    }
}

/// Text of an optional restart-intensity window.
pub open spec fn restart_config_text(config: Option<RestartConfig>) -> Seq<char> {
    match config {
        None => "None"@,
        Some(config) => "Some(RestartConfig { max_restarts: "@ + crate::mailbox::decimal(
            config.max_restarts as nat,
        ) + ", within: "@ + crate::host::duration_text(config.within) + " })"@,
    }
}

/// Text of what happens after a terminal exit.
pub open spec fn terminal_text(membership: TerminalMembership) -> Seq<char> {
    match membership {
        TerminalMembership::Retain => "Retain"@,
        TerminalMembership::Remove => "Remove"@,
    }
}

/// Appends the text of an optional restart policy.
fn append_restart(text: &mut String, restart: Option<RestartPolicy>)
    ensures
        final(text)@ == old(text)@ + restart_text(restart),
{
    match restart {
        None => text.append("None"),
        Some(restart) => {
            text.append("Some(RestartPolicy { mode: ");
            text.append(
                match restart.mode {
                    RestartMode::Always => "Always",
                    RestartMode::OnFailure => "OnFailure",
                    RestartMode::Never => "Never",
                },
            );
            text.append(" })");
        },
    }
    assert(text@ =~= old(text)@ + restart_text(restart));
}

/// Appends the text of an optional shutdown policy.
fn append_shutdown(text: &mut String, shutdown: Option<Shutdown>)
    ensures
        final(text)@ == old(text)@ + shutdown_text(shutdown),
{
    match shutdown {
        None => text.append("None"),
        Some(Shutdown::Abort) => text.append("Some(Abort)"),
        Some(Shutdown::Graceful { grace }) => {
            text.append("Some(Graceful { grace: ");
            let grace = crate::host::duration_string(grace);
            text.append(grace.as_str());
            text.append(" })");
        },
    }
    assert(text@ =~= old(text)@ + shutdown_text(shutdown));
}

/// Appends the text of an optional restart-intensity window.
fn append_restart_config(text: &mut String, config: Option<RestartConfig>)
    ensures
        final(text)@ == old(text)@ + restart_config_text(config),
{
    match config {
        None => text.append("None"),
        Some(config) => {
            text.append("Some(RestartConfig { max_restarts: ");
            crate::mailbox::append_decimal(text, config.max_restarts);
            text.append(", within: ");
            let within = crate::host::duration_string(config.within);
            text.append(within.as_str());
            text.append(" })");
        },
    }
    assert(text@ =~= old(text)@ + restart_config_text(config));
}

/// Supervision settings of one actor declaration. Unset ones are inherited
/// from the enclosing scope.
#[derive(Clone, Copy, Debug, PartialEq, Eq, Structural)]
pub struct ActorPolicies {
    /// Restart policy.
    pub restart: Option<RestartPolicy>,
    /// Shutdown policy.
    pub shutdown: Option<Shutdown>,
    /// What happens to queued messages.
    pub mailbox_shutdown: Option<MailboxShutdown>,
    /// Restart-intensity window.
    pub restart_config: Option<RestartConfig>,
    /// What happens after a terminal exit.
    pub terminal_membership: TerminalMembership,
}

impl ActorPolicies {
    /// Everything is inherited and terminal memberships are retained.
    pub open spec fn inherited() -> ActorPolicies {
        ActorPolicies {
            restart: None,
            shutdown: None,
            mailbox_shutdown: None,
            restart_config: None,
            terminal_membership: TerminalMembership::Retain,
        }
    }

    /// Inherits everything.
    pub fn new() -> (policies: Self)
        ensures
            policies == ActorPolicies::inherited(),
    {
        ActorPolicies {
            restart: None,
            shutdown: None,
            mailbox_shutdown: None,
            restart_config: None,
            terminal_membership: TerminalMembership::Retain,
        }
    }

    /// Text of the settings, as they follow another field.
    pub open spec fn text(self) -> Seq<char> {
        ", restart: "@ + restart_text(self.restart) + ", shutdown: "@ + shutdown_text(self.shutdown)
            + ", restart_config: "@ + restart_config_text(self.restart_config)
            + ", terminal_membership: "@ + terminal_text(self.terminal_membership)
    }

    /// Appends the text of the settings.
    fn append_to(self, text: &mut String)
        ensures
            final(text)@ == old(text)@ + self.text(),
    {
        text.append(", restart: ");
        append_restart(text, self.restart);
        text.append(", shutdown: ");
        append_shutdown(text, self.shutdown);
        text.append(", restart_config: ");
        append_restart_config(text, self.restart_config);
        text.append(", terminal_membership: ");
        text.append(
            match self.terminal_membership {
                TerminalMembership::Retain => "Retain",
                TerminalMembership::Remove => "Remove",
            },
        );
        assert(text@ =~= old(text)@ + self.text());
    }
}

/// One actor declaration, shared by supervision trees and dynamic insertion.
///
/// The declaration owns the identity of the actor's stable binding and all
/// per-actor configuration. Terminal memberships are retained by default.
#[verifier::reject_recursive_types(M)]
pub struct ActorSpec<M> {
    /// Id of the actor.
    pub actor_id: String,
    /// Identity of the binding.
    pub identity: u64,
    /// Whether a reference to the binding has been issued.
    pub referenced: bool,
    /// Mailbox options.
    pub actor_options: ActorOptions<M>,
    /// Supervision settings.
    pub policies: ActorPolicies,
}

impl<M> ActorSpec<M> {
    /// Creates a declaration under `actor_id` with the binding `identity`.
    pub fn new(actor_id: String, identity: u64) -> (spec: Self)
        ensures
            spec.actor_id == actor_id,
            spec.identity == identity,
            !spec.referenced,
            spec.actor_options.mailbox.storage() == MailboxKind::Queue,
            spec.actor_options.mailbox.capacity is None,
            spec.actor_options.size_hint is None,
            spec.actor_options.mailbox_capacity is None,
            spec.policies == ActorPolicies::inherited(),
    {
        ActorSpec {
            actor_id,
            identity,
            referenced: false,
            actor_options: ActorOptions::new(),
            policies: ActorPolicies::new(),
        }
    }

    /// Lists the actor's id and its supervision settings for debugging, and
    /// leaves its mailbox options and functions out.
    pub fn to_debug_string(&self) -> (text: String)
        ensures
            text@ == "ActorSpec { actor_id: "@ + crate::error::debug_text(self.actor_id@)
                + self.policies.text() + ", .. }"@,
    {
        let mut text = "ActorSpec { actor_id: ".to_owned();
        let id = crate::error::debug_string(&self.actor_id);
        text.append(id.as_str());
        self.policies.append_to(&mut text);
        text.append(", .. }");
        text
    }

    /// The declaration `after` it was referred to.
    pub open spec fn refers(&self, actor: ActorRef<M>, after: Self) -> bool {
        &&& after == (ActorSpec { referenced: true, ..*self })
        &&& actor.identity == self.identity
        &&& actor.actor_id == self.actor_id
        &&& actor.source_actor_id is None
    }

    /// Returns this declaration's restart-stable typed actor reference.
    pub fn actor_ref(&mut self) -> (actor: ActorRef<M>)
        ensures
            old(self).refers(actor, *final(self)),
    {
        self.referenced = true;
        ActorRef {
            identity: self.identity,
            actor_id: self.actor_id.clone(),
            source_actor_id: None,
            message: PhantomData,
        }
    }

    /// The slot of the declared actor before its first run.
    pub open spec fn starts_as(&self, core: BindingCore<M>) -> bool {
        &&& core.wf()
        &&& core.identity == self.identity
        &&& core.actor_id == self.actor_id
        &&& core.fresh()
        &&& core.size_hint == self.actor_options.size_hint
    }

    /// Creates the binding slot of this declaration.
    pub fn binding(&self) -> (core: BindingCore<M>)
        ensures
            self.starts_as(core),
    {
        let mut core = BindingCore::new(self.identity, self.actor_id.clone());
        if let Some(size_hint) = &self.actor_options.size_hint {
            core.set_message_size(size_hint.clone());
        }
        core
    }

    /// The declaration with that capacity.
    pub open spec fn sets_capacity(&self, capacity: usize, spec: Self) -> bool {
        &&& spec == (ActorSpec { actor_options: spec.actor_options, ..*self })
        &&& spec.actor_options.keeps_mailbox(&self.actor_options)
        &&& spec.actor_options.mailbox_capacity == Some(capacity)
    }

    /// Overrides the hosting scope's mailbox capacity for this actor.
    pub fn mailbox_capacity(self, capacity: usize) -> (spec: Self)
        ensures
            self.sets_capacity(capacity, spec),
    {
        ActorSpec { actor_options: self.actor_options.mailbox_capacity(capacity), ..self }
    }

    /// The declaration with that mailbox.
    pub open spec fn sets_mailbox(&self, mailbox: Mailbox<M>, spec: Self) -> bool {
        spec == (ActorSpec {
            actor_options: ActorOptions { mailbox, ..self.actor_options },
            ..*self
        })
    }

    /// Selects the actor's mailbox storage policy.
    pub fn mailbox(self, mailbox: Mailbox<M>) -> (spec: Self)
        ensures
            self.sets_mailbox(mailbox, spec),
    {
        ActorSpec { actor_options: self.actor_options.mailbox(mailbox), ..self }
    }

    /// Turns accepted-message byte observation on. This has to come before the
    /// first reference, which would otherwise disagree with the declaration.
    pub fn message_size<F>(self, size_hint: F) -> (spec: Self) where
        F: Fn(&M) -> usize + Send + Sync + 'static,

        requires
            !self.referenced,
            crate::callbacks::is_sizer::<M, F>(size_hint),
        ensures
            spec == (ActorSpec {
                actor_options: ActorOptions {
                    size_hint: spec.actor_options.size_hint,
                    ..self.actor_options
                },
                ..self
            }),
            measured_by(spec.actor_options.size_hint, size_hint),
    {
        ActorSpec { actor_options: self.actor_options.message_size(size_hint), ..self }
    }

    /// The declaration with that setting.
    pub open spec fn sets_restart(&self, restart: RestartPolicy, spec: Self) -> bool {
        spec == (ActorSpec {
            policies: ActorPolicies { restart: Some(restart), ..self.policies },
            ..*self
        })
    }

    /// Overrides the enclosing scope's restart policy.
    pub fn restart(self, restart: RestartPolicy) -> (spec: Self)
        ensures
            self.sets_restart(restart, spec),
    {
        ActorSpec {
            policies: ActorPolicies { restart: Some(restart), ..self.policies },
            ..self
        }
    }

    /// The declaration with that setting.
    pub open spec fn sets_shutdown(&self, shutdown: Shutdown, spec: Self) -> bool {
        spec == (ActorSpec {
            policies: ActorPolicies { shutdown: Some(shutdown), ..self.policies },
            ..*self
        })
    }

    /// Overrides the enclosing scope's shutdown policy.
    pub fn shutdown(self, shutdown: Shutdown) -> (spec: Self)
        ensures
            self.sets_shutdown(shutdown, spec),
    {
        ActorSpec {
            policies: ActorPolicies { shutdown: Some(shutdown), ..self.policies },
            ..self
        }
    }

    /// The declaration with that setting.
    pub open spec fn sets_mailbox_shutdown(&self, shutdown: MailboxShutdown, spec: Self) -> bool {
        spec == (ActorSpec {
            policies: ActorPolicies { mailbox_shutdown: Some(shutdown), ..self.policies },
            ..*self
        })
    }

    /// Overrides what the enclosing scope does with queued messages.
    pub fn mailbox_shutdown(self, shutdown: MailboxShutdown) -> (spec: Self)
        ensures
            self.sets_mailbox_shutdown(shutdown, spec),
    {
        ActorSpec {
            policies: ActorPolicies { mailbox_shutdown: Some(shutdown), ..self.policies },
            ..self
        }
    }

    /// The declaration with that setting.
    pub open spec fn sets_restart_config(&self, config: RestartConfig, spec: Self) -> bool {
        spec == (ActorSpec {
            policies: ActorPolicies { restart_config: Some(config), ..self.policies },
            ..*self
        })
    }

    /// Gives this actor its own restart-intensity window.
    pub fn restart_config(self, config: RestartConfig) -> (spec: Self)
        ensures
            self.sets_restart_config(config, spec),
    {
        ActorSpec {
            policies: ActorPolicies { restart_config: Some(config), ..self.policies },
            ..self
        }
    }

    /// The declaration with that setting.
    pub open spec fn sets_terminal_membership(
        &self,
        membership: TerminalMembership,
        spec: Self,
    ) -> bool {
        spec == (ActorSpec {
            policies: ActorPolicies { terminal_membership: membership, ..self.policies },
            ..*self
        })
    }

    /// Selects what happens to this child after a terminal exit.
    pub fn terminal_membership(self, membership: TerminalMembership) -> (spec: Self)
        ensures
            self.sets_terminal_membership(membership, spec),
    {
        ActorSpec {
            policies: ActorPolicies { terminal_membership: membership, ..self.policies },
            ..self
        }
    }

    /// What the declared actor runs as on its own.
    pub open spec fn runs_as(&self, actor: RunnableActor) -> bool {
        &&& actor.label == self.actor_id
        &&& actor.identity == self.identity
        &&& actor.mailbox_kind == self.actor_options.mailbox.storage()
        &&& actor.mailbox_capacity == match self.actor_options.own_capacity() {
            Some(capacity) => capacity,
            None => crate::host::DEFAULT_MAILBOX_CAPACITY,
        }
        &&& !actor.running
    }

    /// Converts this declaration into the actor of a custom host, without the
    /// validation of supervised placement.
    pub fn into_runnable(self) -> (actor: RunnableActor)
        ensures
            self.runs_as(actor),
    {
        let node = self.into_deferred_node();
        let builder = RunnableActorBuilder::new();
        match node.payload {
            ActorPayload::Deferred(deferred) => deferred.materialize(&builder),
            ActorPayload::Ready(actor) => actor,
        }
    }

    /// What the declared actor is in a tree.
    pub open spec fn defers_to(&self, node: ActorNode) -> bool {
        &&& node.policies == self.policies
        &&& node.payload == ActorPayload::Deferred(
            DeferredActor {
                actor_id: self.actor_id,
                identity: self.identity,
                mailbox_kind: self.actor_options.mailbox.storage(),
                own_capacity: self.actor_options.own_capacity(),
            },
        )
    }

    /// Converts this declaration into a tree node that is made runnable later.
    pub fn into_deferred_node(self) -> (node: ActorNode)
        ensures
            self.defers_to(node),
    {
        let own_capacity = match self.actor_options.mailbox_capacity {
            Some(capacity) => Some(capacity),
            None => self.actor_options.mailbox.capacity,
        };
        ActorNode {
            payload: ActorPayload::Deferred(
                DeferredActor {
                    actor_id: self.actor_id,
                    identity: self.identity,
                    mailbox_kind: self.actor_options.mailbox.kind(),
                    own_capacity,
                },
            ),
            policies: self.policies,
        }
    }

    /// What the declared actor is in a tree of that builder.
    pub open spec fn builds(&self, builder: RunnableActorBuilder, node: ActorNode) -> bool {
        &&& node.policies == self.policies
        &&& node.payload == ActorPayload::Ready(
            builder.built(
                DeferredActor {
                    actor_id: self.actor_id,
                    identity: self.identity,
                    mailbox_kind: self.actor_options.mailbox.storage(),
                    own_capacity: self.actor_options.own_capacity(),
                },
            ),
        )
    }

    /// Converts this declaration into a runnable tree node.
    pub fn into_node(self, builder: &RunnableActorBuilder) -> (node: ActorNode)
        ensures
            self.builds(*builder, node),
    {
        self.into_deferred_node().materialize(builder)
    }
}

/// A declaration without its message type, before its scope makes it runnable.
#[derive(Debug, PartialEq, Eq)]
pub struct DeferredActor {
    /// Id of the actor.
    pub actor_id: String,
    /// Identity of the binding.
    pub identity: u64,
    /// Mailbox storage policy.
    pub mailbox_kind: MailboxKind,
    /// Capacity the declaration asks for.
    pub own_capacity: Option<usize>,
}

impl Clone for DeferredActor {
    fn clone(&self) -> (actor: Self)
        ensures
            actor == *self,
    {
        DeferredActor {
            actor_id: self.actor_id.clone(),
            identity: self.identity,
            mailbox_kind: self.mailbox_kind,
            own_capacity: self.own_capacity,
        }
    }
}

impl DeferredActor {
    /// What validation says.
    pub open spec fn checks(&self, valid: Result<(), ActorOptionsValidationError>) -> bool {
        valid == if self.own_capacity == Some(0usize) {
            Err::<(), _>(ActorOptionsValidationError::ZeroMailboxCapacity)
        } else {
            Ok(())
        }
    }

    /// Rejects a zero mailbox capacity.
    pub fn validate(&self) -> (valid: Result<(), ActorOptionsValidationError>)
        ensures
            self.checks(valid),
    {
        match self.own_capacity {
            Some(capacity) => if capacity == 0 {
                Err(ActorOptionsValidationError::ZeroMailboxCapacity)
            } else {
                Ok(())
            },
            None => Ok(()),
        }
    }

    /// Makes the actor runnable with the scope's defaults.
    pub fn materialize(self, builder: &RunnableActorBuilder) -> (actor: RunnableActor)
        ensures
            actor == builder.built(self),
    {
        builder.actor_from_parts(
            self.actor_id,
            self.identity,
            self.mailbox_kind,
            self.own_capacity,
        )
    }
}

/// What an actor node holds.
#[derive(Debug, PartialEq, Eq)]
pub enum ActorPayload {
    /// A declaration.
    Deferred(DeferredActor),
    /// A runnable actor.
    Ready(RunnableActor),
}

impl Clone for ActorPayload {
    fn clone(&self) -> (payload: Self)
        ensures
            payload == *self,
    {
        match self {
            ActorPayload::Deferred(deferred) => ActorPayload::Deferred(deferred.clone()),
            ActorPayload::Ready(actor) => ActorPayload::Ready(actor.clone()),
        }
    }
}

/// Actor declaration of a supervision tree.
#[derive(Debug, PartialEq, Eq)]
pub struct ActorNode {
    /// The declaration or the runnable actor.
    pub payload: ActorPayload,
    /// Supervision settings.
    pub policies: ActorPolicies,
}

impl Clone for ActorNode {
    fn clone(&self) -> (node: Self)
        ensures
            node == *self,
    {
        ActorNode { payload: self.payload.clone(), policies: self.policies }
    }
}

impl ActorNode {
    /// The actor's label.
    pub open spec fn name(&self) -> Seq<char> {
        match self.payload {
            ActorPayload::Deferred(deferred) => deferred.actor_id@,
            ActorPayload::Ready(actor) => actor.label@,
        }
    }

    /// Whether terminal membership is removed automatically.
    pub open spec fn ephemeral(&self) -> bool {
        self.policies.terminal_membership == TerminalMembership::Remove
    }

    /// Returns the actor's label.
    pub fn label(&self) -> (label: &String)
        ensures
            label@ == self.name(),
    {
        match &self.payload {
            ActorPayload::Deferred(deferred) => &deferred.actor_id,
            ActorPayload::Ready(actor) => &actor.label,
        }
    }

    /// Reports whether terminal membership is removed automatically.
    pub fn removes_when_done(&self) -> (removes: bool)
        ensures
            removes == self.ephemeral(),
    {
        self.policies.terminal_membership == TerminalMembership::Remove
    }

    /// Whether the node can be placed under supervision.
    pub open spec fn valid(&self) -> bool {
        self.payload matches ActorPayload::Deferred(deferred) ==> deferred.own_capacity
            != Some(0usize)
    }

    /// What validation says.
    pub open spec fn checks(&self, valid: Result<(), ActorOptionsValidationError>) -> bool {
        valid == if self.valid() {
            Ok::<(), _>(())
        } else {
            Err(ActorOptionsValidationError::ZeroMailboxCapacity)
        }
    }

    /// Rejects a declaration with a zero mailbox capacity.
    pub fn validate(&self) -> (valid: Result<(), ActorOptionsValidationError>)
        ensures
            self.checks(valid),
    {
        match &self.payload {
            ActorPayload::Deferred(deferred) => deferred.validate(),
            ActorPayload::Ready(_) => Ok(()),
        }
    }

    /// What a node is in a tree of that builder.
    pub open spec fn materializes(&self, builder: RunnableActorBuilder, node: Self) -> bool {
        &&& node.policies == self.policies
        &&& node.payload == ActorPayload::Ready(
            match self.payload {
                ActorPayload::Deferred(deferred) => builder.built(deferred),
                ActorPayload::Ready(actor) => actor,
            },
        )
    }

    /// Makes the actor runnable with the scope's defaults, unless it is.
    pub fn materialize(self, builder: &RunnableActorBuilder) -> (node: Self)
        ensures
            self.materializes(*builder, node),
    {
        let actor = match self.payload {
            ActorPayload::Deferred(deferred) => deferred.materialize(builder),
            ActorPayload::Ready(actor) => actor,
        };
        ActorNode { payload: ActorPayload::Ready(actor), policies: self.policies }
    }
}

/// Unfilled actor declaration for cyclic wiring.
///
/// Create the slot and its reference before factories that close a cycle, then
/// fill it to obtain an ordinary [`ActorSpec`].
#[verifier::reject_recursive_types(M)]
pub struct ActorSlot<M> {
    /// The declaration so far.
    pub spec: ActorSpec<M>,
}

impl<M> ActorSlot<M> {
    /// Opens an unfilled actor declaration.
    pub fn new(actor_id: String, identity: u64) -> (slot: Self)
        ensures
            slot.spec.actor_id == actor_id,
            slot.spec.identity == identity,
            !slot.spec.referenced,
            slot.spec.policies == ActorPolicies::inherited(),
            slot.spec.actor_options.mailbox.storage() == MailboxKind::Queue,
            slot.spec.actor_options.own_capacity() is None,
            slot.spec.actor_options.size_hint is None,
    {
        ActorSlot { spec: ActorSpec::new(actor_id, identity) }
    }

    /// The slot `after` it was referred to.
    pub open spec fn refers(&self, actor: ActorRef<M>, after: Self) -> bool {
        &&& after.spec == (ActorSpec { referenced: true, ..self.spec })
        &&& actor.identity == self.spec.identity
        &&& actor.actor_id == self.spec.actor_id
        &&& actor.source_actor_id is None
    }

    /// Returns this slot's restart-stable typed actor reference.
    pub fn actor_ref(&mut self) -> (actor: ActorRef<M>)
        ensures
            old(self).refers(actor, *final(self)),
    {
        self.spec.actor_ref()
    }

    /// The declaration with that capacity.
    pub open spec fn sets_capacity(&self, capacity: usize, slot: Self) -> bool {
        &&& slot.spec == (ActorSpec { actor_options: slot.spec.actor_options, ..self.spec })
        &&& slot.spec.actor_options.keeps_mailbox(&self.spec.actor_options)
        &&& slot.spec.actor_options.mailbox_capacity == Some(capacity)
    }

    /// Overrides the hosting scope's default mailbox capacity for this slot.
    pub fn mailbox_capacity(self, capacity: usize) -> (slot: Self)
        ensures
            self.sets_capacity(capacity, slot),
    {
        ActorSlot { spec: self.spec.mailbox_capacity(capacity) }
    }

    /// The declaration with that mailbox.
    pub open spec fn sets_mailbox(&self, mailbox: Mailbox<M>, slot: Self) -> bool {
        slot.spec == (ActorSpec {
            actor_options: ActorOptions { mailbox, ..self.spec.actor_options },
            ..self.spec
        })
    }

    /// Selects the slot's mailbox storage policy.
    pub fn mailbox(self, mailbox: Mailbox<M>) -> (slot: Self)
        ensures
            self.sets_mailbox(mailbox, slot),
    {
        ActorSlot { spec: self.spec.mailbox(mailbox) }
    }

    /// Turns accepted-message byte observation on, before the first reference.
    pub fn message_size<F>(self, size_hint: F) -> (slot: Self) where
        F: Fn(&M) -> usize + Send + Sync + 'static,

        requires
            !self.spec.referenced,
            crate::callbacks::is_sizer::<M, F>(size_hint),
        ensures
            slot.spec == (ActorSpec {
                actor_options: ActorOptions {
                    size_hint: slot.spec.actor_options.size_hint,
                    ..self.spec.actor_options
                },
                ..self.spec
            }),
            measured_by(slot.spec.actor_options.size_hint, size_hint),
    {
        ActorSlot { spec: self.spec.message_size(size_hint) }
    }

    /// The declaration with that setting.
    pub open spec fn sets_restart(&self, restart: RestartPolicy, slot: Self) -> bool {
        slot.spec == (ActorSpec {
            policies: ActorPolicies { restart: Some(restart), ..self.spec.policies },
            ..self.spec
        })
    }

    /// Overrides the enclosing scope's restart policy.
    pub fn restart(self, restart: RestartPolicy) -> (slot: Self)
        ensures
            self.sets_restart(restart, slot),
    {
        ActorSlot { spec: self.spec.restart(restart) }
    }

    /// The declaration with that setting.
    pub open spec fn sets_shutdown(&self, shutdown: Shutdown, slot: Self) -> bool {
        slot.spec == (ActorSpec {
            policies: ActorPolicies { shutdown: Some(shutdown), ..self.spec.policies },
            ..self.spec
        })
    }

    /// Overrides the enclosing scope's shutdown policy.
    pub fn shutdown(self, shutdown: Shutdown) -> (slot: Self)
        ensures
            self.sets_shutdown(shutdown, slot),
    {
        ActorSlot { spec: self.spec.shutdown(shutdown) }
    }

    /// The declaration with that setting.
    pub open spec fn sets_restart_config(&self, config: RestartConfig, slot: Self) -> bool {
        slot.spec == (ActorSpec {
            policies: ActorPolicies { restart_config: Some(config), ..self.spec.policies },
            ..self.spec
        })
    }

    /// Gives this actor its own restart-intensity window.
    pub fn restart_config(self, config: RestartConfig) -> (slot: Self)
        ensures
            self.sets_restart_config(config, slot),
    {
        ActorSlot { spec: self.spec.restart_config(config) }
    }

    /// The declaration with that setting.
    pub open spec fn sets_terminal_membership(
        &self,
        membership: TerminalMembership,
        slot: Self,
    ) -> bool {
        slot.spec == (ActorSpec {
            policies: ActorPolicies { terminal_membership: membership, ..self.spec.policies },
            ..self.spec
        })
    }

    /// Selects what happens to this child after a terminal exit.
    pub fn terminal_membership(self, membership: TerminalMembership) -> (slot: Self)
        ensures
            self.sets_terminal_membership(membership, slot),
    {
        ActorSlot { spec: self.spec.terminal_membership(membership) }
    }

    /// Fills the slot. References issued from the slot refer to the result.
    pub fn define(self) -> (spec: ActorSpec<M>)
        ensures
            spec == self.spec,
    {
        self.spec
    }
}

} // verus!
