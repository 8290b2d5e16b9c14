# hawkBit operator

An operator that keeps [Eclipse hawkBit](https://www.eclipse.org/hawkbit/) instances on Kubernetes and
OpenShift. The rules of the operator are verified with Verus; what talks to the cluster is ordinary Rust.

- `src/`: the verified library
  - `crd`: the `Hawkbit` resource
  - `objects`: Kubernetes objects, as far as the operator looks at them
  - `controller`: the objects of an instance (`server`, `resources`, `rabbit`, `keycloak`), their names
    (`target`), and the steps of a reconciliation (`reconcile`)
  - `ownership`, `install`, `entries`, `content`, `text_map`, `order`, `text`: what these are made of
  - `laws`: what holds of all of it, such as that a second reconciliation finds nothing to do
  - `outside`: what is taken from other crates, with contracts that are believed and not proved
- `tests/`: the library on concrete values
- `app/`: the program that watches a namespace and carries out what the library asks for
