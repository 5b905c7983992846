use pyembed_config::context::{
    get_context_value, populate_environment, ContextError, ScriptEnvironment, TuggerContext,
    TuggerContextHolder,
};

#[test]
fn test_get_context() {
    let mut env = ScriptEnvironment::new();
    populate_environment(&mut env, TuggerContext::new()).unwrap();
    let context_value = get_context_value(&env).unwrap();
    assert!(context_value.context().code_signers.is_empty());
}

#[test]
fn resolve_sees_context_as_bound_and_mutated() {
    let mut env = ScriptEnvironment::new();
    let mut ctx = TuggerContext::new();
    ctx.code_signers.push(7);
    populate_environment(&mut env, ctx).unwrap();
    assert_eq!(get_context_value(&env).unwrap().context().code_signers, vec![7]);
    env.register_code_signer(9).unwrap();
    let v = get_context_value(&env).unwrap();
    assert_eq!(v.context().code_signers, vec![7, 9]);
    assert_eq!(v.values_for_descendant_check_and_freeze(), vec![7, 9]);
}

#[test]
fn resolve_without_bind_is_context_not_found() {
    let mut env = ScriptEnvironment::new();
    assert_eq!(get_context_value(&env).err(), Some(ContextError::ContextNotFound));
    assert_eq!(env.register_code_signer(1), Err(ContextError::ContextNotFound));
    env.freeze();
    assert_eq!(get_context_value(&env).err(), Some(ContextError::ContextNotFound));
    assert_eq!(env.register_code_signer(1), Err(ContextError::ContextNotFound));
    assert_eq!(ContextError::ContextNotFound.code(), "TUGGER");
    assert_eq!(
        ContextError::ContextNotFound.message(),
        "unable to resolve context (this should never happen)"
    );
}

#[test]
fn frozen_environment_rejects_mutation() {
    let mut env = ScriptEnvironment::new();
    populate_environment(&mut env, TuggerContext::new()).unwrap();
    env.register_code_signer(3).unwrap();
    env.freeze();
    assert!(env.is_frozen());
    assert_eq!(env.register_code_signer(4), Err(ContextError::FrozenEnvironment));
    assert_eq!(
        populate_environment(&mut env, TuggerContext::new()),
        Err(ContextError::FrozenEnvironment)
    );
    assert_eq!(get_context_value(&env).unwrap().context().code_signers, vec![3]);
    assert!(env.is_frozen());
}

#[test]
fn holder_owns_no_values() {
    assert!(TuggerContextHolder::new().values_for_descendant_check_and_freeze().is_empty());
}
